//! Known actions: which image a `uses:` step runs in, which language
//! runtimes the setup actions of a job ask for, and the Dockerfile that
//! installs them all on one base image.
use vstd::prelude::*;
use crate::strmap::StrMap;
use crate::text::{find_char, lemma_find_char, find_char_exec, chars_of, has_prefix, has_suffix, owned, push_all, push_str, str_eq, str_starts_with, str_ends_with, string_of, slice_range};
use crate::workflow::Step;

verus! {

/// ASCII hexadecimal digit.
pub open spec fn is_hex(c: char) -> bool {
    ('0' <= c && c <= '9') || ('a' <= c && c <= 'f') || ('A' <= c && c <= 'F')
}

/// A full SHA-1 commit hash: forty hexadecimal digits.
pub open spec fn git_sha(s: Seq<char>) -> bool {
    s.len() == 40 && forall|i: int| 0 <= i < s.len() ==> is_hex(#[trigger] s[i])
}

/// Whether `git_ref` is a full SHA-1 commit hash.
pub fn is_git_sha(git_ref: &str) -> (r: bool)
    ensures
        r == git_sha(git_ref@),
{
    let v = chars_of(git_ref);
    if v.len() != 40 {
        return false;
    }
    let mut i: usize = 0;
    while i < v.len()
        invariant
            i <= v@.len(),
            v@ == git_ref@,
            forall|j: int| 0 <= j < i ==> is_hex(#[trigger] v@[j]),
        decreases v.len() - i,
    {
        let c = v[i];
        if !(('0' <= c && c <= '9') || ('a' <= c && c <= 'f') || ('A' <= c && c <= 'F')) {
            assert(!is_hex(v@[i as int]));
            return false;
        }
        i = i + 1;
    }
    true
}

/// The languages that the known setup actions install.
#[derive(PartialEq, Eq, Structural, Clone, Copy)]
pub enum SetupLanguage {
    Node,
    Php,
    Python,
    Go,
    Java,
    Dotnet,
    Rust,
}

/// The setup action a repository name denotes (exact match).
pub open spec fn setup_language_of(repo: Seq<char>) -> Option<SetupLanguage> {
    if repo == "actions/setup-node"@ {
        Some(SetupLanguage::Node)
    } else if repo == "shivammathur/setup-php"@ {
        Some(SetupLanguage::Php)
    } else if repo == "actions/setup-python"@ {
        Some(SetupLanguage::Python)
    } else if repo == "actions/setup-go"@ {
        Some(SetupLanguage::Go)
    } else if repo == "actions/setup-java"@ {
        Some(SetupLanguage::Java)
    } else if repo == "actions/setup-dotnet"@ {
        Some(SetupLanguage::Dotnet)
    } else if repo == "actions-rs/toolchain"@ || repo == "dtolnay/rust-toolchain"@ {
        Some(SetupLanguage::Rust)
    } else {
        None
    }
}

/// Identifier of a language in install scripts and image tags.
pub open spec fn language_name(l: SetupLanguage) -> Seq<char> {
    match l {
        SetupLanguage::Node => "node"@,
        SetupLanguage::Php => "php"@,
        SetupLanguage::Python => "python"@,
        SetupLanguage::Go => "go"@,
        SetupLanguage::Java => "java"@,
        SetupLanguage::Dotnet => "dotnet"@,
        SetupLanguage::Rust => "rust"@,
    }
}

/// The `with:` key that sets the version.
pub open spec fn version_key(l: SetupLanguage) -> Seq<char> {
    match l {
        SetupLanguage::Node => "node-version"@,
        SetupLanguage::Php => "php"@,
        SetupLanguage::Python => "python-version"@,
        SetupLanguage::Go => "go-version"@,
        SetupLanguage::Java => "java-version"@,
        SetupLanguage::Dotnet => "dotnet-version"@,
        SetupLanguage::Rust => "toolchain"@,
    }
}

/// The version used when the step names none.
pub open spec fn default_version(l: SetupLanguage) -> Seq<char> {
    match l {
        SetupLanguage::Node => "20"@,
        SetupLanguage::Php => "8.2"@,
        SetupLanguage::Python => "3.11"@,
        SetupLanguage::Go => "1.21"@,
        SetupLanguage::Java => "17"@,
        SetupLanguage::Dotnet => "7.0"@,
        SetupLanguage::Rust => "stable"@,
    }
}

/// Whether the action's `@ref` names the version when `with:` does not.
pub open spec fn version_from_ref(l: SetupLanguage) -> bool {
    l == SetupLanguage::Rust
}

impl SetupLanguage {
    /// The setup action that `repo` names, if any.
    pub fn of_repository(repo: &str) -> (r: Option<SetupLanguage>)
        ensures
            r == setup_language_of(repo@),
    {
        if str_eq(repo, "actions/setup-node") {
            Some(SetupLanguage::Node)
        } else if str_eq(repo, "shivammathur/setup-php") {
            Some(SetupLanguage::Php)
        } else if str_eq(repo, "actions/setup-python") {
            Some(SetupLanguage::Python)
        } else if str_eq(repo, "actions/setup-go") {
            Some(SetupLanguage::Go)
        } else if str_eq(repo, "actions/setup-java") {
            Some(SetupLanguage::Java)
        } else if str_eq(repo, "actions/setup-dotnet") {
            Some(SetupLanguage::Dotnet)
        } else if str_eq(repo, "actions-rs/toolchain") || str_eq(repo, "dtolnay/rust-toolchain") {
            Some(SetupLanguage::Rust)
        } else {
            None
        }
    }

    /// The language's identifier.
    pub fn name(&self) -> (r: &'static str)
        ensures
            r@ == language_name(*self),
    {
        match self {
            SetupLanguage::Node => "node",
            SetupLanguage::Php => "php",
            SetupLanguage::Python => "python",
            SetupLanguage::Go => "go",
            SetupLanguage::Java => "java",
            SetupLanguage::Dotnet => "dotnet",
            SetupLanguage::Rust => "rust",
        }
    }

    /// The `with:` key of the version.
    pub fn version_key(&self) -> (r: &'static str)
        ensures
            r@ == version_key(*self),
    {
        match self {
            SetupLanguage::Node => "node-version",
            SetupLanguage::Php => "php",
            SetupLanguage::Python => "python-version",
            SetupLanguage::Go => "go-version",
            SetupLanguage::Java => "java-version",
            SetupLanguage::Dotnet => "dotnet-version",
            SetupLanguage::Rust => "toolchain",
        }
    }

    /// The default version.
    pub fn default_version(&self) -> (r: &'static str)
        ensures
            r@ == default_version(*self),
    {
        match self {
            SetupLanguage::Node => "20",
            SetupLanguage::Php => "8.2",
            SetupLanguage::Python => "3.11",
            SetupLanguage::Go => "1.21",
            SetupLanguage::Java => "17",
            SetupLanguage::Dotnet => "7.0",
            SetupLanguage::Rust => "stable",
        }
    }
}

/// The image a `uses:` action runs in, by its repository name.
pub open spec fn action_image(repo: Seq<char>) -> Seq<char> {
    if setup_language_of(repo) is Some {
        "catthehacker/ubuntu:act-latest"@
    } else if has_prefix(repo, "docker/"@) {
        "docker:latest"@
    } else if has_prefix(repo, "aws-actions/"@) {
        "amazon/aws-cli:latest"@
    } else if repo == "actions/checkout"@ || repo == "actions/upload-artifact"@
        || repo == "actions/download-artifact"@ || repo == "actions/cache"@ {
        "catthehacker/ubuntu:act-latest"@
    } else {
        "node:20-slim"@
    }
}

/// The Docker image for a GitHub action's repository name.
pub fn determine_action_image(repository: &str) -> (r: String)
    ensures
        r@ == action_image(repository@),
{
    if SetupLanguage::of_repository(repository).is_some() {
        owned("catthehacker/ubuntu:act-latest")
    } else if str_starts_with(repository, "docker/") {
        owned("docker:latest")
    } else if str_starts_with(repository, "aws-actions/") {
        owned("amazon/aws-cli:latest")
    } else if str_eq(repository, "actions/checkout") || str_eq(repository, "actions/upload-artifact")
        || str_eq(repository, "actions/download-artifact") || str_eq(repository, "actions/cache") {
        owned("catthehacker/ubuntu:act-latest")
    } else {
        owned("node:20-slim")
    }
}

/// `char::is_alphanumeric` (Unicode Alphabetic or Numeric).
pub uninterp spec fn alphanumeric(c: char) -> bool;

/// Calls `char::is_alphanumeric`; its result is named by [`alphanumeric`].
#[verifier::external_body]
fn char_is_alphanumeric(c: char) -> (r: bool)
    ensures
        r == alphanumeric(c),
{
    c.is_alphanumeric()
}

/// A version that is safe to put in a shell command: not empty, and only
/// alphanumerics, `.`, `-` and `_`.
pub open spec fn safe_version(v: Seq<char>) -> bool {
    v.len() > 0 && forall|i: int| 0 <= i < v.len() ==> (alphanumeric(#[trigger] v[i]) || v[i] == '.' || v[i] == '-' || v[i] == '_')
}

/// Whether a version string is safe (see [`safe_version`]).
pub fn is_safe_version(version: &str) -> (r: bool)
    ensures
        r == safe_version(version@),
{
    let v = chars_of(version);
    if v.len() == 0 {
        return false;
    }
    let mut i: usize = 0;
    while i < v.len()
        invariant
            i <= v@.len(),
            v@ == version@,
            forall|j: int| 0 <= j < i ==> (alphanumeric(#[trigger] v@[j]) || v@[j] == '.' || v@[j] == '-' || v@[j] == '_'),
        decreases v.len() - i,
    {
        let c = v[i];
        if !(char_is_alphanumeric(c) || c == '.' || c == '-' || c == '_') {
            return false;
        }
        i = i + 1;
    }
    true
}

/// The part of `v` before its first `.` (all of it when there is none).
pub open spec fn before_dot(v: Seq<char>) -> Seq<char>
    decreases v.len(),
{
    if v.len() == 0 {
        Seq::empty()
    } else if v[0] == '.' {
        Seq::empty()
    } else {
        seq![v[0]] + before_dot(v.drop_first())
    }
}

/// Shell commands that install a language runtime on an Ubuntu image; empty
/// for an unknown language.
pub open spec fn install_script(language: Seq<char>, v: Seq<char>) -> Seq<char> {
    if language == "node"@ {
        "curl -fsSL https://deb.nodesource.com/setup_"@ + before_dot(v) + ".x | bash - && apt-get install -y nodejs"@
    } else if language == "php"@ {
        "apt-get install -y software-properties-common && add-apt-repository -y ppa:ondrej/php && apt-get update && apt-get install -y php"@
            + v + "-cli php"@ + v + "-mbstring php"@ + v + "-xml php"@ + v
            + "-curl unzip && curl -sS https://getcomposer.org/installer | php -- --install-dir=/usr/local/bin --filename=composer"@
    } else if language == "python"@ {
        "apt-get install -y software-properties-common && add-apt-repository -y ppa:deadsnakes/ppa && apt-get update && apt-get install -y python"@
            + v + " python"@ + v + "-venv && ln -sf /usr/bin/python"@ + v + " /usr/bin/python && ln -sf /usr/bin/python"@ + v
            + " /usr/bin/python3 && curl -sS https://bootstrap.pypa.io/get-pip.py | python"@ + v
    } else if language == "go"@ {
        "ARCH=$(dpkg --print-architecture || echo amd64) && curl -fsSL https://go.dev/dl/go"@ + v
            + ".linux-${ARCH}.tar.gz | tar -C /usr/local -xz && ln -s /usr/local/go/bin/go /usr/bin/go"@
    } else if language == "java"@ {
        "apt-get install -y wget apt-transport-https gpg && wget -qO - https://packages.adoptium.net/artifactory/api/gpg/key/public | gpg --dearmor -o /usr/share/keyrings/adoptium.gpg && echo 'deb [signed-by=/usr/share/keyrings/adoptium.gpg] https://packages.adoptium.net/artifactory/deb $(cat /etc/os-release | grep UBUNTU_CODENAME | cut -d= -f2) main' > /etc/apt/sources.list.d/adoptium.list && apt-get update && apt-get install -y temurin-"@
            + v + "-jdk"@
    } else if language == "dotnet"@ {
        "apt-get install -y wget && wget https://dot.net/v1/dotnet-install.sh -O /tmp/dotnet-install.sh && chmod +x /tmp/dotnet-install.sh && /tmp/dotnet-install.sh --channel "@
            + v + " --install-dir /usr/share/dotnet && ln -s /usr/share/dotnet/dotnet /usr/bin/dotnet"@
    } else if language == "rust"@ {
        "curl --proto '=https' --tlsv1.2 -sSf https://sh.rustup.rs | sh -s -- -y --default-toolchain "@ + v
            + " && . $HOME/.cargo/env && ln -s $HOME/.cargo/bin/* /usr/local/bin/"@
    } else {
        Seq::empty()
    }
}

fn before_dot_exec(v: &Vec<char>) -> (r: Vec<char>)
    ensures
        r@ == before_dot(v@),
{
    let mut i: usize = 0;
    assert(v@.skip(0) =~= v@);
    assert(v@.subrange(0, 0) + before_dot(v@) =~= before_dot(v@));
    while i < v.len() && v[i] != '.'
        invariant
            i <= v@.len(),
            before_dot(v@) == v@.subrange(0, i as int) + before_dot(v@.skip(i as int)),
        decreases v.len() - i,
    {
        proof {
            let t = v@.skip(i as int);
            assert(t[0] == v@[i as int]);
            assert(t.drop_first() =~= v@.skip(i + 1));
            assert(v@.subrange(0, i + 1) =~= v@.subrange(0, i as int) + seq![v@[i as int]]);
        }
        i = i + 1;
    }
    proof {
        let t = v@.skip(i as int);
        if i < v@.len() {
            assert(t[0] == '.');
        } else {
            assert(t.len() == 0);
        }
        assert(before_dot(t) =~= Seq::<char>::empty());
    }
    slice_range(v, 0, i)
}

/// Install commands for a language runtime (empty for unknown languages).
pub fn get_install_script(language: &str, version: &str) -> (r: String)
    ensures
        r@ == install_script(language@, version@),
{
    if str_eq(language, "node") {
        let v = chars_of(version);
        let major = before_dot_exec(&v);
        let mut r = owned("curl -fsSL https://deb.nodesource.com/setup_");
        push_all(&mut r, &major);
        push_str(&mut r, ".x | bash - && apt-get install -y nodejs");
        r
    } else if str_eq(language, "php") {
        let mut r = owned("apt-get install -y software-properties-common && add-apt-repository -y ppa:ondrej/php && apt-get update && apt-get install -y php");
        push_str(&mut r, version);
        push_str(&mut r, "-cli php");
        push_str(&mut r, version);
        push_str(&mut r, "-mbstring php");
        push_str(&mut r, version);
        push_str(&mut r, "-xml php");
        push_str(&mut r, version);
        push_str(&mut r, "-curl unzip && curl -sS https://getcomposer.org/installer | php -- --install-dir=/usr/local/bin --filename=composer");
        r
    } else if str_eq(language, "python") {
        let mut r = owned("apt-get install -y software-properties-common && add-apt-repository -y ppa:deadsnakes/ppa && apt-get update && apt-get install -y python");
        push_str(&mut r, version);
        push_str(&mut r, " python");
        push_str(&mut r, version);
        push_str(&mut r, "-venv && ln -sf /usr/bin/python");
        push_str(&mut r, version);
        push_str(&mut r, " /usr/bin/python && ln -sf /usr/bin/python");
        push_str(&mut r, version);
        push_str(&mut r, " /usr/bin/python3 && curl -sS https://bootstrap.pypa.io/get-pip.py | python");
        push_str(&mut r, version);
        r
    } else if str_eq(language, "go") {
        let mut r = owned("ARCH=$(dpkg --print-architecture || echo amd64) && curl -fsSL https://go.dev/dl/go");
        push_str(&mut r, version);
        push_str(&mut r, ".linux-${ARCH}.tar.gz | tar -C /usr/local -xz && ln -s /usr/local/go/bin/go /usr/bin/go");
        r
    } else if str_eq(language, "java") {
        let mut r = owned("apt-get install -y wget apt-transport-https gpg && wget -qO - https://packages.adoptium.net/artifactory/api/gpg/key/public | gpg --dearmor -o /usr/share/keyrings/adoptium.gpg && echo 'deb [signed-by=/usr/share/keyrings/adoptium.gpg] https://packages.adoptium.net/artifactory/deb $(cat /etc/os-release | grep UBUNTU_CODENAME | cut -d= -f2) main' > /etc/apt/sources.list.d/adoptium.list && apt-get update && apt-get install -y temurin-");
        push_str(&mut r, version);
        push_str(&mut r, "-jdk");
        r
    } else if str_eq(language, "dotnet") {
        let mut r = owned("apt-get install -y wget && wget https://dot.net/v1/dotnet-install.sh -O /tmp/dotnet-install.sh && chmod +x /tmp/dotnet-install.sh && /tmp/dotnet-install.sh --channel ");
        push_str(&mut r, version);
        push_str(&mut r, " --install-dir /usr/share/dotnet && ln -s /usr/share/dotnet/dotnet /usr/bin/dotnet");
        r
    } else if str_eq(language, "rust") {
        let mut r = owned("curl --proto '=https' --tlsv1.2 -sSf https://sh.rustup.rs | sh -s -- -y --default-toolchain ");
        push_str(&mut r, version);
        push_str(&mut r, " && . $HOME/.cargo/env && ln -s $HOME/.cargo/bin/* /usr/local/bin/");
        r
    } else {
        String::new()
    }
}

/// A language runtime that a job's setup steps ask for.
pub struct SetupRuntime {
    /// Language identifier (`node`, `php`, ...).
    pub language: String,
    /// Sanitised version.
    pub version: String,
    /// Shell commands that install it.
    pub install_script: String,
}

/// `uses:` split at its first `@` into the repository and the ref.
pub open spec fn split_uses(u: Seq<char>) -> (Seq<char>, Option<Seq<char>>) {
    match find_char(u, '@', 0) {
        Some(k) => (u.subrange(0, k), Some(u.subrange(k + 1, u.len() as int))),
        None => (u, None),
    }
}

/// The version a setup step asks for: its `with:` key, else (for actions
/// that read it) a ref that is not a commit hash, else the default.
pub open spec fn requested_version(with: Option<StrMap<String>>, l: SetupLanguage, git_ref: Option<Seq<char>>) -> Seq<char> {
    let from_with = match with {
        Some(m) => if m@.dom().contains(version_key(l)) { Some(m@[version_key(l)]@) } else { None },
        None => None,
    };
    match from_with {
        Some(v) => v,
        None => if version_from_ref(l) {
            match git_ref {
                Some(r) => if !git_sha(r) { r } else { default_version(l) },
                None => default_version(l),
            }
        } else {
            default_version(l)
        },
    }
}

/// A version without a trailing `.x`.
pub open spec fn strip_dot_x(v: Seq<char>) -> Seq<char> {
    if has_suffix(v, ".x"@) {
        v.subrange(0, v.len() - 2)
    } else {
        v
    }
}

/// The runtime (language, version) that a step sets up, if it is a known
/// setup action with a safe version.
pub open spec fn step_runtime(step: Step) -> Option<(Seq<char>, Seq<char>)> {
    match step.uses {
        None => None,
        Some(u) => {
            let (repo, git_ref) = split_uses(u@);
            match setup_language_of(repo) {
                None => None,
                Some(l) => {
                    let v = strip_dot_x(requested_version(step.with, l, git_ref));
                    if safe_version(v) {
                        Some((language_name(l), v))
                    } else {
                        None
                    }
                },
            }
        },
    }
}

/// Index of the runtime for `lang`, if present.
pub open spec fn language_index(rts: Seq<(Seq<char>, Seq<char>)>, lang: Seq<char>) -> Option<int>
    decreases rts.len(),
{
    if rts.len() == 0 {
        None
    } else {
        match language_index(rts.drop_last(), lang) {
            Some(i) => Some(i),
            None => if rts.last().0 == lang { Some(rts.len() - 1) } else { None },
        }
    }
}

/// The runtimes of a sequence of steps, in order of first appearance; a
/// later step for the same language replaces the earlier one in place.
pub open spec fn detected_runtimes(steps: Seq<Step>) -> Seq<(Seq<char>, Seq<char>)>
    decreases steps.len(),
{
    if steps.len() == 0 {
        Seq::empty()
    } else {
        let prev = detected_runtimes(steps.drop_last());
        match step_runtime(steps.last()) {
            Some(rt) => match language_index(prev, rt.0) {
                Some(i) => prev.update(i, rt),
                None => prev.push(rt),
            },
            None => prev,
        }
    }
}

/// (language, version) of each runtime.
pub open spec fn runtime_pairs(v: Seq<SetupRuntime>) -> Seq<(Seq<char>, Seq<char>)> {
    v.map_values(|r: SetupRuntime| (r.language@, r.version@))
}

proof fn lemma_language_index(rts: Seq<(Seq<char>, Seq<char>)>, lang: Seq<char>)
    ensures
        match language_index(rts, lang) {
            Some(i) => 0 <= i < rts.len() && rts[i].0 == lang && forall|j: int| 0 <= j < i ==> rts[j].0 != lang,
            None => forall|j: int| 0 <= j < rts.len() ==> rts[j].0 != lang,
        },
    decreases rts.len(),
{
    if rts.len() > 0 {
        let prev = rts.drop_last();
        lemma_language_index(prev, lang);
        assert forall|j: int| 0 <= j < prev.len() implies #[trigger] prev[j] == rts[j] by {}
        match language_index(prev, lang) {
            Some(i) => {
                assert forall|j: int| 0 <= j < i implies rts[j].0 != lang by {
                    assert(prev[j] == rts[j]);
                }
            },
            None => {
                assert forall|j: int| 0 <= j < rts.len() - 1 implies rts[j].0 != lang by {
                    assert(prev[j] == rts[j]);
                }
            },
        }
    }
}

/// The (language, version) a step sets up.
fn step_runtime_exec(step: &Step) -> (r: Option<(SetupLanguage, String)>)
    ensures
        match r {
            Some((l, v)) => step_runtime(*step) == Some((language_name(l), v@)),
            None => step_runtime(*step) is None,
        },
{
    let u = match &step.uses {
        Some(u) => u,
        None => return None,
    };
    let uv = chars_of(u.as_str());
    let n = uv.len();
    let (repo, git_ref): (Vec<char>, Option<Vec<char>>) = match find_char_exec(&uv, '@') {
        Some(k) => {
            proof { lemma_find_char(uv@, '@', 0); }
            assert(k < uv@.len());
            (slice_range(&uv, 0, k), Some(slice_range(&uv, k + 1, n)))
        },
        None => (slice_range(&uv, 0, n), None),
    };
    assert(uv@.subrange(0, uv@.len() as int) =~= uv@);
    let repo_s = string_of(&repo);
    let l = match SetupLanguage::of_repository(repo_s.as_str()) {
        Some(l) => l,
        None => return None,
    };
    let from_with: Option<String> = match &step.with {
        Some(m) => match m.get(l.version_key()) {
            Some(v) => Some(v.clone()),
            None => None,
        },
        None => None,
    };
    let ver: String = match from_with {
        Some(v) => v,
        None => {
            if l == SetupLanguage::Rust {
                match git_ref {
                    Some(r) => {
                        let rs = string_of(&r);
                        if !is_git_sha(rs.as_str()) {
                            rs
                        } else {
                            owned(l.default_version())
                        }
                    },
                    None => owned(l.default_version()),
                }
            } else {
                owned(l.default_version())
            }
        },
    };
    assert(ver@ == requested_version(step.with, l, split_uses(u@).1));
    let ver = if str_ends_with(ver.as_str(), ".x") {
        let cv = chars_of(ver.as_str());
        proof { reveal_strlit(".x"); }
        string_of(&slice_range(&cv, 0, cv.len() - 2))
    } else {
        ver
    };
    if !is_safe_version(ver.as_str()) {
        return None;
    }
    Some((l, ver))
}

/// Index of the runtime for `lang` in a runtime list.
fn language_position(runtimes: &Vec<SetupRuntime>, lang: &str) -> (r: Option<usize>)
    ensures
        match r {
            Some(k) => language_index(runtime_pairs(runtimes@), lang@) == Some(k as int) && k < runtimes@.len(),
            None => language_index(runtime_pairs(runtimes@), lang@) is None,
        },
{
    let ghost ps = runtime_pairs(runtimes@);
    let mut k: usize = 0;
    while k < runtimes.len()
        invariant
            k <= runtimes@.len(),
            ps == runtime_pairs(runtimes@),
            forall|j: int| 0 <= j < k ==> ps[j].0 != lang@,
        decreases runtimes.len() - k,
    {
        assert(ps[k as int].0 == runtimes@[k as int].language@);
        if str_eq(runtimes[k].language.as_str(), lang) {
            proof {
                lemma_language_index(ps, lang@);
                match language_index(ps, lang@) {
                    Some(i) => {
                        if i < k {
                            assert(ps[i].0 != lang@);
                        }
                        if i > k {
                            assert(ps[k as int].0 != lang@);
                        }
                    },
                    None => {},
                }
            }
            return Some(k);
        }
        k = k + 1;
    }
    proof { lemma_language_index(ps, lang@); }
    None
}

/// The language runtimes that a job's setup steps ask for (see
/// [`detected_runtimes`]), each with its install script.
pub fn detect_setup_runtimes(steps: &Vec<Step>) -> (r: Vec<SetupRuntime>)
    ensures
        runtime_pairs(r@) == detected_runtimes(steps@),
        forall|i: int| 0 <= i < r@.len() ==> (#[trigger] r@[i]).install_script@ == install_script(r@[i].language@, r@[i].version@),
{
    let mut runtimes: Vec<SetupRuntime> = Vec::new();
    let mut i: usize = 0;
    while i < steps.len()
        invariant
            i <= steps@.len(),
            runtime_pairs(runtimes@) == detected_runtimes(steps@.take(i as int)),
            forall|j: int| 0 <= j < runtimes@.len() ==> (#[trigger] runtimes@[j]).install_script@ == install_script(runtimes@[j].language@, runtimes@[j].version@),
        decreases steps.len() - i,
    {
        let ghost prev = runtime_pairs(runtimes@);
        proof {
            assert(steps@.take(i + 1).drop_last() =~= steps@.take(i as int));
            assert(steps@.take(i + 1).last() == steps@[i as int]);
        }
        match step_runtime_exec(&steps[i]) {
            Some((l, v)) => {
                let lang = owned(l.name());
                let script = get_install_script(lang.as_str(), v.as_str());
                let rt = SetupRuntime { language: lang, version: v, install_script: script };
                let pos = language_position(&runtimes, rt.language.as_str());
                match pos {
                    Some(k) => {
                        let ghost rtv = (rt.language@, rt.version@);
                        runtimes.set(k, rt);
                        assert(runtime_pairs(runtimes@) =~= prev.update(k as int, rtv));
                    },
                    None => {
                        let ghost rtv = (rt.language@, rt.version@);
                        runtimes.push(rt);
                        assert(runtime_pairs(runtimes@) =~= prev.push(rtv));
                    },
                }
            },
            None => {},
        }
        i = i + 1;
    }
    assert(steps@.take(steps@.len() as int) =~= steps@);
    runtimes
}

/// The lines that the install scripts add to the single `RUN` directive.
pub open spec fn script_lines(scripts: Seq<Seq<char>>) -> Seq<char>
    decreases scripts.len(),
{
    if scripts.len() == 0 {
        Seq::empty()
    } else {
        let last = scripts.last();
        script_lines(scripts.drop_last()) + (if last.len() == 0 { Seq::empty() } else { " && \\\n    "@ + last })
    }
}

/// The install scripts of a list of runtimes.
pub open spec fn scripts_of(v: Seq<SetupRuntime>) -> Seq<Seq<char>> {
    v.map_values(|r: SetupRuntime| r.install_script@)
}

/// A Dockerfile that installs every runtime on `base` in one `RUN` directive.
pub open spec fn combined_dockerfile(scripts: Seq<Seq<char>>, base: Seq<char>) -> Seq<char> {
    "FROM "@ + base + "\n"@
        + "RUN apt-get update && \\\n"@
        + "    apt-get install -y --no-install-recommends curl bash git ca-certificates gnupg"@
        + script_lines(scripts)
        + " && \\\n    rm -rf /var/lib/apt/lists/*\n"@
}

/// The Dockerfile for a set of runtimes (see [`combined_dockerfile`]).
pub fn generate_combined_dockerfile(runtimes: &Vec<SetupRuntime>, base_image: &str) -> (r: String)
    ensures
        r@ == combined_dockerfile(scripts_of(runtimes@), base_image@),
{
    let mut d = owned("FROM ");
    push_str(&mut d, base_image);
    push_str(&mut d, "\n");
    push_str(&mut d, "RUN apt-get update && \\\n");
    push_str(&mut d, "    apt-get install -y --no-install-recommends curl bash git ca-certificates gnupg");
    let ghost head = d@;
    let mut i: usize = 0;
    while i < runtimes.len()
        invariant
            i <= runtimes@.len(),
            d@ == head + script_lines(scripts_of(runtimes@).take(i as int)),
        decreases runtimes.len() - i,
    {
        let ghost before = d@;
        proof {
            let t = scripts_of(runtimes@).take(i + 1);
            assert(t.drop_last() =~= scripts_of(runtimes@).take(i as int));
            assert(t.last() == runtimes@[i as int].install_script@);
        }
        let empty = str_eq(runtimes[i].install_script.as_str(), "");
        proof {
            reveal_strlit("");
            let last = runtimes@[i as int].install_script@;
            if last.len() == 0 {
                assert(last =~= ""@);
            }
            assert(empty <==> last.len() == 0);
        }
        if !empty {
            push_str(&mut d, " && \\\n");
            push_str(&mut d, "    ");
            push_str(&mut d, runtimes[i].install_script.as_str());
            assert(d@ =~= before + (" && \\\n    "@ + runtimes@[i as int].install_script@)) by {
                reveal_strlit(" && \\\n");
                reveal_strlit("    ");
                reveal_strlit(" && \\\n    ");
            }
        } else {
            assert(d@ =~= before + Seq::<char>::empty());
        }
        proof {
            let t = scripts_of(runtimes@).take(i + 1);
            let last = t.last();
            if last.len() == 0 {
                assert(script_lines(t) == script_lines(t.drop_last()));
                assert(d@ =~= head + script_lines(t));
            } else {
                assert(script_lines(t) == script_lines(t.drop_last()) + (" && \\\n    "@ + last));
                assert(d@ =~= head + script_lines(t));
            }
        }
        i = i + 1;
    }
    assert(scripts_of(runtimes@).take(runtimes@.len() as int) =~= scripts_of(runtimes@));
    push_str(&mut d, " && \\\n    rm -rf /var/lib/apt/lists/*\n");
    d
}

/// FNV-1a offset basis (64-bit).
pub const FNV_OFFSET_BASIS: u64 = 14695981039346656037;

/// FNV-1a prime (64-bit).
pub const FNV_PRIME: u64 = 1099511628211;

/// The 64-bit FNV-1a hash of a byte string.
pub open spec fn fnv1a(data: Seq<u8>) -> u64
    decreases data.len(),
{
    if data.len() == 0 {
        FNV_OFFSET_BASIS
    } else {
        vstd::wrapping::u64_specs::wrapping_mul(fnv1a(data.drop_last()) ^ (data.last() as u64), FNV_PRIME)
    }
}

/// 64-bit FNV-1a: stable across toolchains, unlike the standard hasher.
pub fn fnv1a_hash(data: &[u8]) -> (h: u64)
    ensures
        h == fnv1a(data@),
{
    let mut hash: u64 = FNV_OFFSET_BASIS;
    let mut i: usize = 0;
    while i < data.len()
        invariant
            i <= data@.len(),
            hash == fnv1a(data@.take(i as int)),
        decreases data.len() - i,
    {
        assert(data@.take(i + 1).drop_last() =~= data@.take(i as int));
        hash = hash ^ (data[i] as u64);
        hash = hash.wrapping_mul(FNV_PRIME);
        i = i + 1;
    }
    assert(data@.take(data@.len() as int) =~= data@);
    hash
}

/// Lowercase hexadecimal digits of a number, as `{:x}` writes it.
pub open spec fn hex(n: nat) -> Seq<char>
    decreases n,
{
    if n < 16 {
        seq![hex_digit(n)]
    } else {
        hex(n / 16).push(hex_digit(n % 16))
    }
}

/// The lowercase hexadecimal digit of `d < 16`.
pub open spec fn hex_digit(d: nat) -> char {
    if d < 10 { ((d + 48) as u32) as char } else { ((d + 87) as u32) as char }
}

fn hex_digit_exec(d: u64) -> (c: char)
    requires
        d < 16,
    ensures
        c == hex_digit(d as nat),
{
    let code: u8 = if d < 10 { (d + 48) as u8 } else { (d + 87) as u8 };
    code as char
}

fn hex_chars(n: u64) -> (r: Vec<char>)
    ensures
        r@ == hex(n as nat),
    decreases n,
{
    if n < 16 {
        let mut r = Vec::new();
        r.push(hex_digit_exec(n));
        assert(r@ =~= seq![hex_digit(n as nat)]);
        r
    } else {
        let mut r = hex_chars(n / 16);
        r.push(hex_digit_exec(n % 16));
        r
    }
}

/// `language` + `version` of each runtime.
pub open spec fn tag_parts(v: Seq<SetupRuntime>) -> Seq<Seq<char>> {
    v.map_values(|r: SetupRuntime| r.language@ + r.version@)
}

/// The image tag of a combined runtime image: `prefix`, the sorted
/// `language`+`version` parts joined by `-`, `-`, and the hex FNV-1a hash of
/// the Dockerfile.
pub open spec fn image_tag(prefix: Seq<char>, sorted_parts: Seq<Seq<char>>, dockerfile: Seq<char>) -> Seq<char> {
    prefix + crate::text::join(sorted_parts, "-"@) + "-"@ + hex(fnv1a(vstd::utf8::encode_utf8(dockerfile)) as nat)
}

/// The tag under which the combined image for `runtimes` is built: the parts
/// are sorted, so the order of the setup steps does not matter.
pub fn combined_image_tag(prefix: &str, runtimes: &Vec<SetupRuntime>, dockerfile: &str) -> (r: String)
    ensures
        exists|sorted_parts: Seq<Seq<char>>| {
            &&& sorted_parts.to_multiset() == tag_parts(runtimes@).to_multiset()
            &&& crate::order::sorted(sorted_parts)
            &&& r@ == image_tag(prefix@, sorted_parts, dockerfile@)
        },
{
    let mut parts: Vec<String> = Vec::new();
    let mut i: usize = 0;
    while i < runtimes.len()
        invariant
            i <= runtimes@.len(),
            crate::text::views(parts@) == tag_parts(runtimes@).take(i as int),
        decreases runtimes.len() - i,
    {
        let mut p = runtimes[i].language.clone();
        push_str(&mut p, runtimes[i].version.as_str());
        let ghost before = parts@;
        parts.push(p);
        assert(tag_parts(runtimes@)[i as int] == runtimes@[i as int].language@ + runtimes@[i as int].version@);
        assert(crate::text::views(parts@) =~= crate::text::views(before).push(tag_parts(runtimes@)[i as int]));
        assert(crate::text::views(parts@) =~= tag_parts(runtimes@).take(i + 1));
        i = i + 1;
    }
    assert(tag_parts(runtimes@).take(runtimes@.len() as int) =~= tag_parts(runtimes@));
    let sorted = crate::order::sort_strings(&parts);
    let hash = fnv1a_hash(dockerfile.as_bytes());
    let mut tag = owned(prefix);
    let joined = crate::text::join_strings(&sorted, "-");
    push_str(&mut tag, joined.as_str());
    push_str(&mut tag, "-");
    let h = hex_chars(hash);
    push_all(&mut tag, &h);
    tag
}

/// The tag of a combined image does not depend on the order of the
/// runtimes: runtime lists with the same language/version parts give the
/// same tag for the same Dockerfile.
pub proof fn lemma_tag_ignores_order(prefix: Seq<char>, a: Seq<SetupRuntime>, b: Seq<SetupRuntime>, dockerfile: Seq<char>, sa: Seq<Seq<char>>, sb: Seq<Seq<char>>)
    requires
        tag_parts(a).to_multiset() == tag_parts(b).to_multiset(),
        sa.to_multiset() == tag_parts(a).to_multiset(),
        crate::order::sorted(sa),
        sb.to_multiset() == tag_parts(b).to_multiset(),
        crate::order::sorted(sb),
    ensures
        image_tag(prefix, sa, dockerfile) == image_tag(prefix, sb, dockerfile),
{
    crate::order::lemma_sorted_unique(sa, sb);
}

/// The languages of the detected runtimes are all different.
pub proof fn lemma_detected_languages_distinct(steps: Seq<Step>)
    ensures
        forall|i: int, j: int| 0 <= i < j < detected_runtimes(steps).len()
            ==> #[trigger] detected_runtimes(steps)[i].0 != #[trigger] detected_runtimes(steps)[j].0,
    decreases steps.len(),
{
    if steps.len() > 0 {
        let prev = detected_runtimes(steps.drop_last());
        lemma_detected_languages_distinct(steps.drop_last());
        match step_runtime(steps.last()) {
            Some(rt) => {
                lemma_language_index(prev, rt.0);
                match language_index(prev, rt.0) {
                    Some(x) => {
                        let cur = prev.update(x, rt);
                        assert forall|i: int, j: int| 0 <= i < j < cur.len() implies #[trigger] cur[i].0 != #[trigger] cur[j].0 by {
                            if i != x && j != x {
                                assert(cur[i] == prev[i] && cur[j] == prev[j]);
                            } else if i == x {
                                assert(cur[j] == prev[j]);
                                assert(prev[x].0 == rt.0);
                            } else {
                                assert(cur[i] == prev[i]);
                                assert(prev[x].0 == rt.0);
                            }
                        }
                    },
                    None => {
                        let cur = prev.push(rt);
                        assert forall|i: int, j: int| 0 <= i < j < cur.len() implies #[trigger] cur[i].0 != #[trigger] cur[j].0 by {
                            if j < prev.len() {
                                assert(cur[i] == prev[i] && cur[j] == prev[j]);
                            } else {
                                assert(cur[i] == prev[i]);
                            }
                        }
                    },
                }
            },
            None => {},
        }
    }
}

} // verus!

verus! {

/// The actions that the runner handles itself (`actions/checkout`,
/// `actions/upload-artifact`, `actions/download-artifact`,
/// `actions/cache`) and every setup action run on the full runner image
/// `catthehacker/ubuntu:act-latest`; any other action of the `actions`
/// owner runs on `node:20-slim`.
pub proof fn lemma_actions_owner_images(repo: Seq<char>)
    ensures
        (repo == "actions/checkout"@ || repo == "actions/upload-artifact"@
            || repo == "actions/download-artifact"@ || repo == "actions/cache"@
            || setup_language_of(repo) is Some) ==> action_image(repo) == "catthehacker/ubuntu:act-latest"@,
        (has_prefix(repo, "actions/"@) && repo != "actions/checkout"@ && repo != "actions/upload-artifact"@
            && repo != "actions/download-artifact"@ && repo != "actions/cache"@
            && setup_language_of(repo) is None) ==> action_image(repo) == "node:20-slim"@,
{
    reveal_strlit("actions/");
    reveal_strlit("docker/");
    reveal_strlit("aws-actions/");
    reveal_strlit("actions/checkout");
    reveal_strlit("actions/upload-artifact");
    reveal_strlit("actions/download-artifact");
    reveal_strlit("actions/cache");
    let starts_actions = has_prefix(repo, "actions/"@)
        || repo == "actions/checkout"@ || repo == "actions/upload-artifact"@
        || repo == "actions/download-artifact"@ || repo == "actions/cache"@;
    if starts_actions {
        assert(repo.len() > 1 && repo[0] == 'a' && repo[1] == 'c') by {
            if has_prefix(repo, "actions/"@) {
                assert(repo.subrange(0, 8)[0] == repo[0]);
                assert(repo.subrange(0, 8)[1] == repo[1]);
            }
        }
        assert(!has_prefix(repo, "docker/"@)) by {
            if has_prefix(repo, "docker/"@) {
                assert(repo.subrange(0, 7)[0] == repo[0]);
            }
        }
        assert(!has_prefix(repo, "aws-actions/"@)) by {
            if has_prefix(repo, "aws-actions/"@) {
                assert(repo.subrange(0, 12)[1] == repo[1]);
            }
        }
    }
}

} // verus!
