//! Resource tracking of the Docker runtime: the containers and networks a
//! run created, so that cleanup can remove them.
use vstd::prelude::*;
use crate::text::{chars_of, contains, contains_seq, owned, push_str, views};
use crate::tracking::{ResourceTracker, without};

verus! {

/// Starts tracking a container.
pub fn track_container(tracker: &mut ResourceTracker, id: &str)
    ensures
        final(tracker).containers_view() == old(tracker).containers_view().push(id@),
        final(tracker).networks_view() == old(tracker).networks_view(),
{
    tracker.add_container(id);
}

/// Stops tracking a container (every entry with this id).
pub fn untrack_container(tracker: &mut ResourceTracker, id: &str)
    ensures
        final(tracker).containers_view() == without(old(tracker).containers_view(), id@),
        final(tracker).networks_view() == old(tracker).networks_view(),
{
    tracker.remove_container(id);
}

/// Starts tracking a network.
pub fn track_network(tracker: &mut ResourceTracker, id: &str)
    ensures
        final(tracker).networks_view() == old(tracker).networks_view().push(id@),
        final(tracker).containers_view() == old(tracker).containers_view(),
{
    tracker.add_network(id);
}

/// Stops tracking a network (every entry with this id).
pub fn untrack_network(tracker: &mut ResourceTracker, id: &str)
    ensures
        final(tracker).networks_view() == without(old(tracker).networks_view(), id@),
        final(tracker).containers_view() == old(tracker).containers_view(),
{
    tracker.remove_network(id);
}

/// The tracked containers, oldest first.
pub fn get_tracked_containers(tracker: &ResourceTracker) -> (r: Vec<String>)
    ensures
        views(r@) == tracker.containers_view(),
{
    tracker.containers()
}

/// The tracked networks, oldest first.
pub fn get_tracked_networks(tracker: &ResourceTracker) -> (r: Vec<String>)
    ensures
        views(r@) == tracker.networks_view(),
{
    tracker.networks()
}

/// Each pair written as its two texts joined by `sep` (`K=V`, `host:container`).
pub open spec fn joined_pairs(pairs: Seq<(String, String)>, sep: Seq<char>) -> Seq<Seq<char>> {
    pairs.map_values(|p: (String, String)| p.0@ + sep + p.1@)
}

/// The texts of a list of pairs joined by `sep` (see [`joined_pairs`]).
pub fn join_pairs(pairs: &Vec<(String, String)>, sep: &str) -> (r: Vec<String>)
    ensures
        views(r@) == joined_pairs(pairs@, sep@),
{
    let mut r: Vec<String> = Vec::new();
    let mut i: usize = 0;
    while i < pairs.len()
        invariant
            i <= pairs@.len(),
            views(r@) == joined_pairs(pairs@.take(i as int), sep@),
        decreases pairs.len() - i,
    {
        let (a, b) = &pairs[i];
        let mut t = owned(a.as_str());
        push_str(&mut t, sep);
        push_str(&mut t, b.as_str());
        let ghost before = r@;
        r.push(t);
        assert(views(r@) =~= views(before).push(a@ + sep@ + b@));
        assert(joined_pairs(pairs@.take(i + 1), sep@) =~= joined_pairs(pairs@.take(i as int), sep@).push(a@ + sep@ + b@));
        i = i + 1;
    }
    assert(pairs@.take(pairs@.len() as int) =~= pairs@);
    r
}

/// Whether an image is a Windows image.
pub open spec fn windows_image(image: Seq<char>) -> bool {
    contains_seq(image, "windows"@) || contains_seq(image, "servercore"@) || contains_seq(image, "nanoserver"@)
}

/// Whether an image is one of the runner images that stand in for macOS.
pub open spec fn macos_emulation(image: Seq<char>) -> bool {
    contains_seq(image, "act-"@) && (contains_seq(image, "catthehacker"@) || contains_seq(image, "nektos"@))
}

/// The variables added for a macOS stand-in image.
pub open spec fn macos_env() -> Seq<Seq<char>> {
    seq!["RUNNER_OS=macOS"@, "RUNNER_ARCH=X64"@, "TMPDIR=/tmp"@, "HOME=/root"@,
        "GITHUB_WORKSPACE=/github/workspace"@, "PATH=/usr/local/bin:/usr/bin:/bin:/usr/sbin:/sbin"@]
}

/// How a container is created for a command: its environment, mounts and
/// the settings that depend on the kind of image.
pub struct DockerContainerPlan {
    pub env: Vec<String>,
    pub binds: Vec<String>,
    pub cmd: Vec<String>,
    pub working_dir: String,
    /// `windows` for Windows images.
    pub platform: Option<String>,
    /// Windows images run with process isolation.
    pub process_isolation: bool,
    pub user: Option<String>,
    pub entrypoint: Option<Vec<String>>,
    /// The `wrkflw.platform` label.
    pub platform_label: Option<String>,
}

/// Plans the container for a command: `K=V` variables (with the macOS
/// variables for a macOS stand-in image, which also runs through
/// `bash -l -c`), `host:container` binds, and the Windows settings for a
/// Windows image.
pub fn docker_container_plan(image: &str, cmd: &Vec<String>, env_vars: &Vec<(String, String)>, working_dir: &str, volumes: &Vec<(String, String)>) -> (r: DockerContainerPlan)
    ensures
        views(r.env@) == joined_pairs(env_vars@, "="@) + (if macos_emulation(image@) { macos_env() } else { Seq::empty() }),
        views(r.binds@) == joined_pairs(volumes@, ":"@),
        views(r.cmd@) == views(cmd@),
        r.working_dir@ == working_dir@,
        r.process_isolation == windows_image(image@),
        match r.platform { Some(p) => windows_image(image@) && p@ == "windows"@, None => !windows_image(image@) },
        match r.user { Some(u) => windows_image(image@) && u@ == "ContainerAdministrator"@, None => !windows_image(image@) },
        match r.entrypoint {
            Some(e) => macos_emulation(image@) && views(e@) == seq!["bash"@, "-l"@, "-c"@],
            None => !macos_emulation(image@),
        },
        match r.platform_label { Some(l) => macos_emulation(image@) && l@ == "macos"@, None => !macos_emulation(image@) },
{
    let iv = chars_of(image);
    let windows = contains(&iv, &chars_of("windows")) || contains(&iv, &chars_of("servercore")) || contains(&iv, &chars_of("nanoserver"));
    let mac = contains(&iv, &chars_of("act-")) && (contains(&iv, &chars_of("catthehacker")) || contains(&iv, &chars_of("nektos")));
    let mut env = join_pairs(env_vars, "=");
    if mac {
        let ghost before = views(env@);
        env.push(owned("RUNNER_OS=macOS"));
        env.push(owned("RUNNER_ARCH=X64"));
        env.push(owned("TMPDIR=/tmp"));
        env.push(owned("HOME=/root"));
        env.push(owned("GITHUB_WORKSPACE=/github/workspace"));
        env.push(owned("PATH=/usr/local/bin:/usr/bin:/bin:/usr/sbin:/sbin"));
        assert(views(env@) =~= before + macos_env());
    } else {
        assert(views(env@) =~= views(env@) + Seq::<Seq<char>>::empty());
    }
    let binds = join_pairs(volumes, ":");
    let mut c: Vec<String> = Vec::new();
    let mut i: usize = 0;
    while i < cmd.len()
        invariant
            i <= cmd@.len(),
            views(c@) == views(cmd@).take(i as int),
        decreases cmd.len() - i,
    {
        let ghost before = c@;
        c.push(owned(cmd[i].as_str()));
        assert(views(c@) =~= views(before).push(cmd@[i as int]@));
        assert(views(cmd@).take(i + 1) =~= views(cmd@).take(i as int).push(cmd@[i as int]@));
        i = i + 1;
    }
    assert(views(cmd@).take(cmd@.len() as int) =~= views(cmd@));
    let entrypoint = if mac {
        let mut e: Vec<String> = Vec::new();
        e.push(owned("bash"));
        e.push(owned("-l"));
        e.push(owned("-c"));
        assert(views(e@) =~= seq!["bash"@, "-l"@, "-c"@]);
        Some(e)
    } else {
        None
    };
    DockerContainerPlan {
        env,
        binds,
        cmd: c,
        working_dir: owned(working_dir),
        platform: if windows { Some(owned("windows")) } else { None },
        process_isolation: windows,
        user: if windows { Some(owned("ContainerAdministrator")) } else { None },
        entrypoint,
        platform_label: if mac { Some(owned("macos")) } else { None },
    }
}

/// Whether a finished container is removed: always after success, and
/// after a failure unless failed containers are kept for debugging.
pub fn removes_container(exit_code: i32, preserve_containers_on_failure: bool) -> (r: bool)
    ensures
        r == (exit_code == 0 || !preserve_containers_on_failure),
{
    exit_code == 0 || !preserve_containers_on_failure
}

} // verus!
