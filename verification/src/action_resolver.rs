//! What kind of action an `action.yml` describes, read from its `runs`
//! section.
use vstd::prelude::*;
use crate::paths::strip_all;
use crate::text::{chars_of, has_prefix, has_suffix, owned, push_str, str_eq, str_starts_with, str_ends_with, string_of, unsigned_text, parse_unsigned};

verus! {

/// How an action runs, as its `runs.using` declares.
pub enum ActionType {
    /// A JavaScript action on the given Node.js major version.
    Node { version: u32 },
    /// A Docker action that pulls a registry image.
    Docker { image: String },
    /// A Docker action that builds its own Dockerfile.
    DockerBuild,
    /// A composite action.
    Composite,
}

/// Abstract form of [`ActionType`].
pub enum ActionTypeS {
    Node(u32),
    Docker(Seq<char>),
    DockerBuild,
    Composite,
}

impl View for ActionType {
    type V = ActionTypeS;

    open spec fn view(&self) -> ActionTypeS {
        match self {
            ActionType::Node { version } => ActionTypeS::Node(*version),
            ActionType::Docker { image } => ActionTypeS::Docker(image@),
            ActionType::DockerBuild => ActionTypeS::DockerBuild,
            ActionType::Composite => ActionTypeS::Composite,
        }
    }
}

/// The fields of an `action.yml` `runs` section that decide its type
/// (each present only when it is a string).
pub struct ActionRuns {
    pub using: Option<String>,
    pub image: Option<String>,
}

/// Whether a Docker action's image names a Dockerfile to build.
pub open spec fn builds_dockerfile(image: Seq<char>) -> bool {
    image == "Dockerfile"@ || has_prefix(image, "./"@) || has_prefix(image, "../"@) || has_suffix(image, "/Dockerfile"@)
}

/// The action type for a `runs.using` value and the `runs.image` field.
pub open spec fn using_type(using: Seq<char>, image: Option<Seq<char>>) -> Result<ActionTypeS, Seq<char>> {
    if using == "composite"@ {
        Ok(ActionTypeS::Composite)
    } else if using == "docker"@ {
        match image {
            None => Err("Docker action missing 'runs.image' field"@),
            Some(raw) => {
                let i = strip_all(raw, "docker://"@);
                if builds_dockerfile(i) { Ok(ActionTypeS::DockerBuild) } else { Ok(ActionTypeS::Docker(i)) }
            },
        }
    } else if has_prefix(using, "node"@) {
        match unsigned_text(strip_all(using, "node"@), u32::MAX as nat) {
            Some(v) => Ok(ActionTypeS::Node(v as u32)),
            None => Ok(ActionTypeS::Node(20)),
        }
    } else {
        Err("Unknown runs.using value: "@ + using)
    }
}

/// Maps `runs.using` (and, for Docker actions, `runs.image`) to the action type.
pub fn parse_using(using: &str, image: Option<&str>) -> (r: Result<ActionType, String>)
    ensures
        match r {
            Ok(t) => using_type(using@, match image { Some(i) => Some(i@), None => None }) == Ok::<ActionTypeS, Seq<char>>(t@),
            Err(m) => using_type(using@, match image { Some(i) => Some(i@), None => None }) == Err::<ActionTypeS, Seq<char>>(m@),
        },
{
    if str_eq(using, "composite") {
        Ok(ActionType::Composite)
    } else if str_eq(using, "docker") {
        match image {
            None => Err(owned("Docker action missing 'runs.image' field")),
            Some(raw) => {
                let rv = chars_of(raw);
                let prefix = chars_of("docker://");
                proof { reveal_strlit("docker://"); }
                let iv = crate::paths::strip_all_exec(&rv, &prefix);
                let img = string_of(&iv);
                let s = img.as_str();
                if str_eq(s, "Dockerfile") || str_starts_with(s, "./") || str_starts_with(s, "../") || str_ends_with(s, "/Dockerfile") {
                    Ok(ActionType::DockerBuild)
                } else {
                    Ok(ActionType::Docker { image: img })
                }
            },
        }
    } else if str_starts_with(using, "node") {
        let uv = chars_of(using);
        let node = chars_of("node");
        proof { reveal_strlit("node"); }
        let rest = crate::paths::strip_all_exec(&uv, &node);
        match parse_unsigned(&rest, 4294967295usize) {
            Some(v) => Ok(ActionType::Node { version: v as u32 }),
            None => Ok(ActionType::Node { version: 20 }),
        }
    } else {
        let mut m = owned("Unknown runs.using value: ");
        push_str(&mut m, using);
        Err(m)
    }
}

/// The action type an `action.yml` declares, given its `runs` section.
pub fn action_type_of(runs: Option<&ActionRuns>) -> (r: Result<ActionType, String>)
    ensures
        match runs {
            None => r matches Err(m) && m@ == "action.yml missing 'runs' section"@,
            Some(rs) => match rs.using {
                None => r matches Err(m) && m@ == "action.yml missing 'runs.using' field"@,
                Some(u) => match r {
                    Ok(t) => using_type(u@, match rs.image { Some(i) => Some(i@), None => None }) == Ok::<ActionTypeS, Seq<char>>(t@),
                    Err(m) => using_type(u@, match rs.image { Some(i) => Some(i@), None => None }) == Err::<ActionTypeS, Seq<char>>(m@),
                },
            },
        },
{
    match runs {
        None => Err(owned("action.yml missing 'runs' section")),
        Some(rs) => match &rs.using {
            None => Err(owned("action.yml missing 'runs.using' field")),
            Some(u) => {
                let image: Option<&str> = match &rs.image {
                    Some(i) => Some(i.as_str()),
                    None => None,
                };
                parse_using(u.as_str(), image)
            },
        },
    }
}

} // verus!
