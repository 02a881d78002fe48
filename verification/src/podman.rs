//! The Podman runtime's own state: its settings and the containers it
//! started.
use vstd::prelude::*;
use crate::text::{has_prefix, owned, str_starts_with, views};
use crate::docker::{join_pairs, joined_pairs};
use crate::tracking::{ResourceTracker, without};

verus! {

/// Why a container runtime cannot be used.
pub enum ContainerError {
    /// The runtime cannot start containers.
    ContainerStart(String),
}

/// The Podman container runtime.
pub struct PodmanRuntime {
    pub preserve_containers_on_failure: bool,
}

impl PodmanRuntime {
    /// A runtime that removes failed containers, when Podman is available.
    pub fn new(available: bool) -> (r: Result<PodmanRuntime, ContainerError>)
        ensures
            match r {
                Ok(p) => available && !p.preserve_containers_on_failure,
                Err(ContainerError::ContainerStart(m)) => !available && m@ == "Podman is not available on this system"@,
            },
    {
        PodmanRuntime::new_with_config(available, false)
    }

    /// A runtime with the given setting, when Podman is available.
    pub fn new_with_config(available: bool, preserve_containers_on_failure: bool) -> (r: Result<PodmanRuntime, ContainerError>)
        ensures
            match r {
                Ok(p) => available && p.preserve_containers_on_failure == preserve_containers_on_failure,
                Err(ContainerError::ContainerStart(m)) => !available && m@ == "Podman is not available on this system"@,
            },
    {
        if !available {
            return Err(ContainerError::ContainerStart(owned("Podman is not available on this system")));
        }
        Ok(PodmanRuntime::new_unchecked(preserve_containers_on_failure))
    }

    /// A runtime with the given setting, for a caller that has checked
    /// that Podman is available.
    pub fn new_unchecked(preserve_containers_on_failure: bool) -> (r: PodmanRuntime)
        ensures
            r.preserve_containers_on_failure == preserve_containers_on_failure,
    {
        PodmanRuntime { preserve_containers_on_failure }
    }
}

/// Starts tracking a container.
pub fn track_container(tracker: &mut ResourceTracker, id: &str)
    ensures
        final(tracker).containers_view() == old(tracker).containers_view().push(id@),
        final(tracker).networks_view() == old(tracker).networks_view(),
{
    tracker.add_container(id);
}

/// Stops tracking a container (every entry with this id).
pub fn untrack_container(tracker: &mut ResourceTracker, id: &str)
    ensures
        final(tracker).containers_view() == without(old(tracker).containers_view(), id@),
        final(tracker).networks_view() == old(tracker).networks_view(),
{
    tracker.remove_container(id);
}

/// The tracked containers, oldest first.
pub fn get_tracked_containers(tracker: &ResourceTracker) -> (r: Vec<String>)
    ensures
        views(r@) == tracker.containers_view(),
{
    tracker.containers()
}

/// Each item preceded by `flag` (`-e K=V -e ...`).
pub open spec fn flagged(flag: Seq<char>, items: Seq<Seq<char>>) -> Seq<Seq<char>>
    decreases items.len(),
{
    if items.len() == 0 {
        Seq::empty()
    } else {
        flagged(flag, items.drop_last()) + seq![flag, items.last()]
    }
}

fn push_flagged(out: &mut Vec<String>, flag: &str, items: &Vec<String>)
    ensures
        views(final(out)@) == views(old(out)@) + flagged(flag@, views(items@)),
{
    let ghost start = views(out@);
    let mut i: usize = 0;
    while i < items.len()
        invariant
            i <= items@.len(),
            views(out@) == start + flagged(flag@, views(items@).take(i as int)),
        decreases items.len() - i,
    {
        let ghost before = views(out@);
        out.push(owned(flag));
        out.push(owned(items[i].as_str()));
        assert(views(items@).take(i + 1).drop_last() =~= views(items@).take(i as int));
        assert(views(out@) =~= before + seq![flag@, items@[i as int]@]);
        i = i + 1;
    }
    assert(views(items@).take(items@.len() as int) =~= views(items@));
}

/// The arguments of `podman run` for a command.
pub open spec fn run_args_spec(preserve: bool, name: Seq<char>, working_dir: Seq<char>, image: Seq<char>, local_prefix: Seq<char>,
    env_vars: Seq<(String, String)>, volumes: Seq<(String, String)>, entrypoint: Option<Seq<char>>, cmd: Seq<Seq<char>>) -> Seq<Seq<char>> {
    seq!["run"@]
        + (if preserve { Seq::empty() } else { seq!["--rm"@] })
        + seq!["--name"@, name, "-w"@, working_dir]
        + (if has_prefix(image, local_prefix) { seq!["--pull=never"@] } else { Seq::empty() })
        + flagged("-e"@, joined_pairs(env_vars, "="@))
        + flagged("-v"@, joined_pairs(volumes, ":"@))
        + (match entrypoint { Some(e) => if e.len() > 0 { seq!["--entrypoint"@, e] } else { Seq::empty() }, None => Seq::empty() })
        + seq![image]
        + cmd
}

impl PodmanRuntime {
    /// The arguments of `podman run` for a command in a named container:
    /// `--rm` unless failed containers are kept, `--pull=never` for a
    /// locally built image, then the variables, the mounts, the entrypoint
    /// when one is given, the image and the command.
    pub fn run_args(&self, container_name: &str, working_dir: &str, image: &str, local_image_prefix: &str,
        env_vars: &Vec<(String, String)>, volumes: &Vec<(String, String)>, entrypoint: Option<&str>, cmd: &Vec<String>) -> (r: Vec<String>)
        ensures
            views(r@) == run_args_spec(self.preserve_containers_on_failure, container_name@, working_dir@, image@, local_image_prefix@,
                env_vars@, volumes@, match entrypoint { Some(e) => Some(e@), None => None }, views(cmd@)),
    {
        let mut r: Vec<String> = Vec::new();
        r.push(owned("run"));
        if !self.preserve_containers_on_failure {
            r.push(owned("--rm"));
        }
        r.push(owned("--name"));
        r.push(owned(container_name));
        r.push(owned("-w"));
        r.push(owned(working_dir));
        if str_starts_with(image, local_image_prefix) {
            r.push(owned("--pull=never"));
        }
        let ghost head = views(r@);
        assert(head =~= seq!["run"@]
            + (if self.preserve_containers_on_failure { Seq::<Seq<char>>::empty() } else { seq!["--rm"@] })
            + seq!["--name"@, container_name@, "-w"@, working_dir@]
            + (if has_prefix(image@, local_image_prefix@) { seq!["--pull=never"@] } else { Seq::<Seq<char>>::empty() }));
        let env_strings = join_pairs(env_vars, "=");
        push_flagged(&mut r, "-e", &env_strings);
        let volume_strings = join_pairs(volumes, ":");
        push_flagged(&mut r, "-v", &volume_strings);
        let ghost fe = flagged("-e"@, joined_pairs(env_vars@, "="@));
        let ghost fv = flagged("-v"@, joined_pairs(volumes@, ":"@));
        assert(views(r@) == head + fe + fv);
        let ghost epseg: Seq<Seq<char>> = match entrypoint {
            Some(e) => if e@.len() > 0 { seq!["--entrypoint"@, e@] } else { Seq::empty() },
            None => Seq::empty(),
        };
        let ghost mid = views(r@);
        match entrypoint {
            Some(ep) => {
                if !ep.is_empty() {
                    r.push(owned("--entrypoint"));
                    r.push(owned(ep));
                }
            },
            None => {},
        }
        assert(views(r@) =~= mid + epseg);
        let ghost before_image = views(r@);
        r.push(owned(image));
        assert(views(r@) =~= before_image + seq![image@]);
        let ghost tail_start = views(r@);
        let mut i: usize = 0;
        while i < cmd.len()
            invariant
                i <= cmd@.len(),
                views(r@) == tail_start + views(cmd@).take(i as int),
            decreases cmd.len() - i,
        {
            let ghost before = views(r@);
            r.push(owned(cmd[i].as_str()));
            assert(views(r@) =~= before.push(cmd@[i as int]@));
            assert(views(cmd@).take(i + 1) =~= views(cmd@).take(i as int).push(cmd@[i as int]@));
            i = i + 1;
        }
        assert(views(cmd@).take(cmd@.len() as int) =~= views(cmd@));
        assert(views(r@) == head + fe + fv + epseg + seq![image@] + views(cmd@));
        assert(run_args_spec(self.preserve_containers_on_failure, container_name@, working_dir@, image@, local_image_prefix@,
                env_vars@, volumes@, match entrypoint { Some(e) => Some(e@), None => None }, views(cmd@))
            == head + fe + fv + epseg + seq![image@] + views(cmd@));
        r
    }
}

/// What is done with a container after `podman run`, besides no longer
/// tracking it.
#[derive(PartialEq, Eq, Structural, Clone, Copy, Debug)]
pub enum PodmanCleanup {
    /// Nothing: `--rm` removed it.
    Nothing,
    /// `podman rm`: it succeeded but was started without `--rm`.
    Remove,
    /// `podman rm -f`: the run itself failed and it was started without `--rm`.
    ForceRemove,
    /// Kept for debugging: it failed and failed containers are kept.
    Preserve,
}

impl PodmanRuntime {
    /// The cleanup after a run that ended with `exit_code`, or that could
    /// not be carried out (`None`).
    pub fn cleanup_after(&self, exit_code: Option<i32>) -> (r: PodmanCleanup)
        ensures
            r == (if !self.preserve_containers_on_failure {
                PodmanCleanup::Nothing
            } else {
                match exit_code {
                    Some(c) => if c == 0 { PodmanCleanup::Remove } else { PodmanCleanup::Preserve },
                    None => PodmanCleanup::ForceRemove,
                }
            }),
    {
        if !self.preserve_containers_on_failure {
            PodmanCleanup::Nothing
        } else {
            match exit_code {
                Some(c) => if c == 0 { PodmanCleanup::Remove } else { PodmanCleanup::Preserve },
                None => PodmanCleanup::ForceRemove,
            }
        }
    }
}

} // verus!
