//! The Dockerfiles of the language images that the container runtimes
//! build on demand, and the tags they are built under.
use vstd::prelude::*;
use crate::text::{owned, push_str, str_eq, views};

verus! {

/// The system-package layer of a language image, installing `tools`.
pub open spec fn apt_layer(tools: Seq<char>) -> Seq<char> {
    "RUN apt-get update && apt-get install -y --no-install-recommends \\\n"@ + "    "@ + tools + " \\\n"@
        + "    && rm -rf /var/lib/apt/lists/*\n"@
}

/// One `RUN <installer> <package>` line per extra package.
pub open spec fn package_lines(installer: Seq<char>, packages: Seq<Seq<char>>) -> Seq<char>
    decreases packages.len(),
{
    if packages.len() == 0 {
        Seq::empty()
    } else {
        package_lines(installer, packages.drop_last()) + "RUN "@ + installer + " "@ + packages.last() + "\n"@
    }
}

/// The base image of a language: `<repository>:<version>`, or the default
/// image when no version is asked for.
pub open spec fn base_image(repository: Seq<char>, default_image: Seq<char>, version: Option<Seq<char>>) -> Seq<char> {
    match version {
        Some(v) => repository + ":"@ + v,
        None => default_image,
    }
}

/// The Dockerfile of a language image, or `None` for a language without
/// one. Java images take no extra packages.
pub open spec fn language_dockerfile_spec(language: Seq<char>, version: Option<Seq<char>>, packages: Seq<Seq<char>>) -> Option<Seq<char>> {
    let from = |img: Seq<char>| "FROM "@ + img + "\n\n"@;
    if language == "python"@ {
        Some(from(base_image("python"@, "python:3.11-slim"@, version)) + apt_layer("build-essential"@) + package_lines("pip install"@, packages))
    } else if language == "node"@ {
        Some(from(base_image("node"@, "node:20-slim"@, version)) + apt_layer("build-essential"@) + package_lines("npm install -g"@, packages))
    } else if language == "java"@ {
        Some(from(base_image("eclipse-temurin"@, "eclipse-temurin:17-jdk"@, version)) + apt_layer("maven"@))
    } else if language == "go"@ {
        Some(from(base_image("golang"@, "golang:1.21-slim"@, version)) + apt_layer("git"@) + package_lines("go install"@, packages))
    } else if language == "dotnet"@ {
        Some(from(base_image("mcr.microsoft.com/dotnet/sdk"@, "mcr.microsoft.com/dotnet/sdk:7.0"@, version)) + package_lines("dotnet tool install -g"@, packages))
    } else if language == "rust"@ {
        Some(from(base_image("rust"@, "rust:latest"@, version)) + apt_layer("build-essential"@) + package_lines("cargo install"@, packages))
    } else {
        None
    }
}

fn push_from(out: &mut String, repository: &str, default_image: &str, version: Option<&str>)
    ensures
        final(out)@ == old(out)@ + "FROM "@ + base_image(repository@, default_image@, match version { Some(v) => Some(v@), None => None }) + "\n\n"@,
{
    push_str(out, "FROM ");
    match version {
        Some(v) => {
            push_str(out, repository);
            push_str(out, ":");
            push_str(out, v);
        },
        None => push_str(out, default_image),
    }
    push_str(out, "\n\n");
}

fn push_apt_layer(out: &mut String, tools: &str)
    ensures
        final(out)@ == old(out)@ + apt_layer(tools@),
{
    push_str(out, "RUN apt-get update && apt-get install -y --no-install-recommends \\\n");
    push_str(out, "    ");
    push_str(out, tools);
    push_str(out, " \\\n");
    push_str(out, "    && rm -rf /var/lib/apt/lists/*\n");
}

fn push_packages(out: &mut String, installer: &str, packages: &Vec<String>)
    ensures
        final(out)@ == old(out)@ + package_lines(installer@, views(packages@)),
{
    let ghost start = out@;
    let mut i: usize = 0;
    while i < packages.len()
        invariant
            i <= packages@.len(),
            out@ == start + package_lines(installer@, views(packages@).take(i as int)),
        decreases packages.len() - i,
    {
        assert(views(packages@).take(i + 1).drop_last() =~= views(packages@).take(i as int));
        push_str(out, "RUN ");
        push_str(out, installer);
        push_str(out, " ");
        push_str(out, packages[i].as_str());
        push_str(out, "\n");
        i = i + 1;
    }
    assert(views(packages@).take(packages@.len() as int) =~= views(packages@));
}

/// The Dockerfile of a language image (see [`language_dockerfile_spec`]),
/// or the error for a language without one.
pub fn language_dockerfile(language: &str, version: Option<&str>, additional_packages: Option<&Vec<String>>) -> (r: Result<String, String>)
    ensures
        ({
            let pk = match additional_packages { Some(p) => views(p@), None => Seq::empty() };
            match language_dockerfile_spec(language@, match version { Some(v) => Some(v@), None => None }, pk) {
                Some(d) => r matches Ok(s) && s@ == d,
                None => r matches Err(m) && m@ == "Unsupported language: "@ + language@,
            }
        }),
{
    let empty: Vec<String> = Vec::new();
    let packages: &Vec<String> = match additional_packages { Some(p) => p, None => &empty };
    assert(views(empty@) =~= Seq::<Seq<char>>::empty());
    let mut out = String::new();
    if str_eq(language, "python") {
        push_from(&mut out, "python", "python:3.11-slim", version);
        push_apt_layer(&mut out, "build-essential");
        push_packages(&mut out, "pip install", packages);
    } else if str_eq(language, "node") {
        push_from(&mut out, "node", "node:20-slim", version);
        push_apt_layer(&mut out, "build-essential");
        push_packages(&mut out, "npm install -g", packages);
    } else if str_eq(language, "java") {
        push_from(&mut out, "eclipse-temurin", "eclipse-temurin:17-jdk", version);
        push_apt_layer(&mut out, "maven");
    } else if str_eq(language, "go") {
        push_from(&mut out, "golang", "golang:1.21-slim", version);
        push_apt_layer(&mut out, "git");
        push_packages(&mut out, "go install", packages);
    } else if str_eq(language, "dotnet") {
        push_from(&mut out, "mcr.microsoft.com/dotnet/sdk", "mcr.microsoft.com/dotnet/sdk:7.0", version);
        push_packages(&mut out, "dotnet tool install -g", packages);
    } else if str_eq(language, "rust") {
        push_from(&mut out, "rust", "rust:latest", version);
        push_apt_layer(&mut out, "build-essential");
        push_packages(&mut out, "cargo install", packages);
    } else {
        let mut m = owned("Unsupported language: ");
        push_str(&mut m, language);
        return Err(m);
    }
    Ok(out)
}

/// The tag a language image is built under: `wrkflw-<language>-<version>`,
/// the version being `latest` when none is asked for.
pub fn language_image_tag(language: &str, version: Option<&str>) -> (r: String)
    ensures
        r@ == "wrkflw-"@ + language@ + "-"@ + (match version { Some(v) => v@, None => "latest"@ }),
{
    let mut r = owned("wrkflw-");
    push_str(&mut r, language);
    push_str(&mut r, "-");
    match version {
        Some(v) => push_str(&mut r, v),
        None => push_str(&mut r, "latest"),
    }
    r
}

} // verus!
