//! The inputs and reports of the actions that the runner carries out
//! itself: `actions/cache`, `actions/upload-artifact` and
//! `actions/download-artifact`.
use vstd::prelude::*;
use crate::text::{chars_of, decimal, decimal_chars, owned, push_all, push_str, string_of, trim, trim_vec, views};

verus! {

/// The lines of `s` split at `\n`, before the last one, and the last one.
pub open spec fn line_split(s: Seq<char>) -> (Seq<Seq<char>>, Seq<char>)
    decreases s.len(),
{
    if s.len() == 0 {
        (Seq::empty(), Seq::empty())
    } else {
        let (done, cur) = line_split(s.drop_last());
        if s.last() == '\n' {
            (done.push(cur), Seq::empty())
        } else {
            (done, cur.push(s.last()))
        }
    }
}

/// The lines of `s`, split at every `\n`.
pub open spec fn split_lines(s: Seq<char>) -> Seq<Seq<char>> {
    line_split(s).0.push(line_split(s).1)
}

/// The lines trimmed, the empty ones left out.
pub open spec fn nonempty_trimmed(lines: Seq<Seq<char>>) -> Seq<Seq<char>>
    decreases lines.len(),
{
    if lines.len() == 0 {
        Seq::empty()
    } else {
        let prev = nonempty_trimmed(lines.drop_last());
        let t = trim(lines.last());
        if t.len() > 0 { prev.push(t) } else { prev }
    }
}

/// A multi-line input read as a list: one item per non-blank line, trimmed.
pub open spec fn input_list(s: Seq<char>) -> Seq<Seq<char>> {
    nonempty_trimmed(split_lines(s))
}

fn push_trimmed(out: &mut Vec<String>, line: &Vec<char>)
    ensures
        views(final(out)@) == (if trim(line@).len() > 0 { views(old(out)@).push(trim(line@)) } else { views(old(out)@) }),
{
    let t = trim_vec(line.as_slice());
    if t.len() > 0 {
        let ghost before = out@;
        out.push(string_of(&t));
        assert(views(out@) =~= views(before).push(trim(line@)));
    }
}

/// Reads a multi-line input as a list (see [`input_list`]).
pub fn input_lines(s: &str) -> (r: Vec<String>)
    ensures
        views(r@) == input_list(s@),
{
    let v = chars_of(s);
    let mut out: Vec<String> = Vec::new();
    let mut cur: Vec<char> = Vec::new();
    let ghost mut done: Seq<Seq<char>> = Seq::empty();
    let mut i: usize = 0;
    while i < v.len()
        invariant
            i <= v@.len(),
            v@ == s@,
            line_split(v@.take(i as int)) == (done, cur@),
            views(out@) == nonempty_trimmed(done),
        decreases v.len() - i,
    {
        assert(v@.take(i + 1).drop_last() =~= v@.take(i as int));
        assert(v@.take(i + 1).last() == v@[i as int]);
        if v[i] == '\n' {
            push_trimmed(&mut out, &cur);
            proof {
                assert(done.push(cur@).drop_last() =~= done);
                done = done.push(cur@);
            }
            cur = Vec::new();
        } else {
            cur.push(v[i]);
        }
        i = i + 1;
    }
    assert(v@.take(v@.len() as int) =~= v@);
    push_trimmed(&mut out, &cur);
    assert(done.push(cur@).drop_last() =~= done);
    out
}

/// What `actions/cache` is asked for.
pub struct CacheRequest {
    pub key: String,
    /// The paths, one per non-blank line of `path`.
    pub paths: Vec<String>,
    /// The fallback keys, one per non-blank line of `restore-keys`.
    pub restore_keys: Vec<String>,
}

/// Reads the inputs of `actions/cache` (after expression substitution):
/// a key and at least one path are required.
pub fn cache_request(key: Option<&str>, path: Option<&str>, restore_keys: Option<&str>) -> (r: Result<CacheRequest, String>)
    ensures
        ({
            let k = match key { Some(k) => k@, None => Seq::empty() };
            let ps = match path { Some(p) => input_list(p@), None => Seq::empty() };
            let rs = match restore_keys { Some(x) => input_list(x@), None => Seq::empty() };
            if k.len() == 0 || ps.len() == 0 {
                r matches Err(m) && m@ == "Required inputs 'key' and 'path' not provided for actions/cache"@
            } else {
                r matches Ok(c) && c.key@ == k && views(c.paths@) == ps && views(c.restore_keys@) == rs
            }
        }),
{
    let k = match key { Some(k) => owned(k), None => String::new() };
    let paths = match path {
        Some(p) => input_lines(p),
        None => {
            let e: Vec<String> = Vec::new();
            assert(views(e@) =~= Seq::<Seq<char>>::empty());
            e
        },
    };
    let restore = match restore_keys {
        Some(x) => input_lines(x),
        None => {
            let e: Vec<String> = Vec::new();
            assert(views(e@) =~= Seq::<Seq<char>>::empty());
            e
        },
    };
    if k.as_str().is_empty() || paths.len() == 0 {
        return Err(owned("Required inputs 'key' and 'path' not provided for actions/cache"));
    }
    Ok(CacheRequest { key: k, paths, restore_keys: restore })
}

/// The report of `actions/cache`: the key that was restored, or the miss
/// whose save waits for the end of the job.
pub fn cache_report(hit: Option<&str>, key: &str) -> (r: String)
    ensures
        r@ == (match hit {
            Some(h) => "Cache restored (key: "@ + h@ + ")"@,
            None => "Cache miss for key '"@ + key@ + "'. Save deferred to end of job."@,
        }),
{
    match hit {
        Some(h) => {
            let mut r = owned("Cache restored (key: ");
            push_str(&mut r, h);
            push_str(&mut r, ")");
            r
        },
        None => {
            let mut r = owned("Cache miss for key '");
            push_str(&mut r, key);
            push_str(&mut r, "'. Save deferred to end of job.");
            r
        },
    }
}

/// The `cache-hit` output line.
pub fn cache_hit_line(hit: bool) -> (r: String)
    ensures
        r@ == "cache-hit="@ + (if hit { "true"@ } else { "false"@ }) + "\n"@,
{
    let mut r = owned("cache-hit=");
    push_str(&mut r, if hit { "true" } else { "false" });
    push_str(&mut r, "\n");
    r
}

/// Reads the inputs of `actions/upload-artifact`: the artifact's name
/// (`artifact` when not given) and its required path pattern.
pub fn upload_request(name: Option<&str>, path: Option<&str>) -> (r: Result<(String, String), String>)
    ensures
        ({
            let p = match path { Some(p) => p@, None => Seq::empty() };
            if p.len() == 0 {
                r matches Err(m) && m@ == "Required input 'path' not provided for upload-artifact"@
            } else {
                r matches Ok((n, q)) && q@ == p && n@ == (match name { Some(n) => n@, None => "artifact"@ })
            }
        }),
{
    let p = match path { Some(p) => owned(p), None => String::new() };
    if p.as_str().is_empty() {
        return Err(owned("Required input 'path' not provided for upload-artifact"));
    }
    let n = match name { Some(n) => owned(n), None => owned("artifact") };
    Ok((n, p))
}

/// The report of an upload of `count` files.
pub fn upload_report(name: &str, count: u64) -> (r: String)
    ensures
        r@ == "Uploaded artifact '"@ + name@ + "': "@ + decimal(count as nat) + " file(s)"@,
{
    let mut r = owned("Uploaded artifact '");
    push_str(&mut r, name);
    push_str(&mut r, "': ");
    push_all(&mut r, &decimal_chars(count));
    push_str(&mut r, " file(s)");
    r
}

/// The report of a download of one artifact.
pub fn download_report(name: &str, count: u64) -> (r: String)
    ensures
        r@ == "Downloaded artifact '"@ + name@ + "': "@ + decimal(count as nat) + " file(s)"@,
{
    let mut r = owned("Downloaded artifact '");
    push_str(&mut r, name);
    push_str(&mut r, "': ");
    push_all(&mut r, &decimal_chars(count));
    push_str(&mut r, " file(s)");
    r
}

/// The report of a download of every artifact.
pub fn download_all_report(artifacts: u64, files: u64) -> (r: String)
    ensures
        r@ == "Downloaded "@ + decimal(artifacts as nat) + " artifact(s), "@ + decimal(files as nat) + " file(s) total"@,
{
    let mut r = owned("Downloaded ");
    push_all(&mut r, &decimal_chars(artifacts));
    push_str(&mut r, " artifact(s), ");
    push_all(&mut r, &decimal_chars(files));
    push_str(&mut r, " file(s) total");
    r
}

} // verus!
