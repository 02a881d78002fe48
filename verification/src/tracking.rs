//! Bookkeeping shared by the container runtimes: the containers and
//! networks a run created (so that cleanup can remove them), and the
//! customised images built for it.
use vstd::prelude::*;
use crate::strmap::StrMap;
use crate::text::{has_prefix, owned, push_str, str_eq, str_starts_with, views};

verus! {

/// `s` without any occurrence of `x`, order kept.
pub open spec fn without(s: Seq<Seq<char>>, x: Seq<char>) -> Seq<Seq<char>>
    decreases s.len(),
{
    if s.len() == 0 {
        Seq::empty()
    } else {
        let r = without(s.drop_last(), x);
        if s.last() == x { r } else { r.push(s.last()) }
    }
}

/// Removing `x` leaves no `x`, and keeps every other element.
pub proof fn lemma_without(s: Seq<Seq<char>>, x: Seq<char>)
    ensures
        !without(s, x).contains(x),
        forall|y: Seq<char>| y != x ==> (without(s, x).contains(y) <==> s.contains(y)),
        without(s, x).len() <= s.len(),
    decreases s.len(),
{
    if s.len() > 0 {
        let p = s.drop_last();
        lemma_without(p, x);
        let r = without(p, x);
        let l = s.last();
        assert forall|y: Seq<char>| #[trigger] s.contains(y) <==> (p.contains(y) || l == y) by {
            if s.contains(y) {
                let i = choose|i: int| 0 <= i < s.len() && s[i] == y;
                if i < s.len() - 1 {
                    assert(p[i] == y);
                }
            }
            if p.contains(y) {
                let i = choose|i: int| 0 <= i < p.len() && p[i] == y;
                assert(s[i] == y);
            }
            if l == y {
                assert(s[s.len() - 1] == y);
            }
        }
        assert forall|y: Seq<char>| #[trigger] r.push(l).contains(y) <==> (r.contains(y) || l == y) by {
            let rl = r.push(l);
            if rl.contains(y) {
                let i = choose|i: int| 0 <= i < rl.len() && rl[i] == y;
                if i < rl.len() - 1 {
                    assert(r[i] == y);
                }
            }
            if r.contains(y) {
                let i = choose|i: int| 0 <= i < r.len() && r[i] == y;
                assert(rl[i] == y);
            }
            if l == y {
                assert(rl[rl.len() - 1] == y);
            }
        }
    }
}

/// Removes every `id` from a list of names (`Vec::retain`).
fn remove_all(v: &mut Vec<String>, id: &str)
    ensures
        views(final(v)@) == without(views(old(v)@), id@),
{
    let mut kept: Vec<String> = Vec::new();
    let mut i: usize = 0;
    let ghost orig = views(v@);
    while i < v.len()
        invariant
            i <= v@.len(),
            orig == views(v@),
            views(kept@) == without(orig.take(i as int), id@),
        decreases v.len() - i,
    {
        proof {
            assert(orig.take(i + 1).drop_last() =~= orig.take(i as int));
            assert(orig.take(i + 1).last() == v@[i as int]@);
        }
        if !str_eq(v[i].as_str(), id) {
            let ghost before = kept@;
            kept.push(v[i].clone());
            assert(views(kept@) =~= views(before).push(v@[i as int]@));
        }
        i = i + 1;
    }
    assert(orig.take(v@.len() as int) =~= orig);
    *v = kept;
}

/// The containers and networks that a run has created and not yet removed.
pub struct ResourceTracker {
    containers: Vec<String>,
    networks: Vec<String>,
}

impl ResourceTracker {
    /// The tracked container ids, oldest first.
    pub closed spec fn containers_view(&self) -> Seq<Seq<char>> {
        views(self.containers@)
    }

    /// The tracked network ids, oldest first.
    pub closed spec fn networks_view(&self) -> Seq<Seq<char>> {
        views(self.networks@)
    }

    /// Nothing tracked.
    pub fn new() -> (t: ResourceTracker)
        ensures
            t.containers_view() == Seq::<Seq<char>>::empty(),
            t.networks_view() == Seq::<Seq<char>>::empty(),
    {
        let t = ResourceTracker { containers: Vec::new(), networks: Vec::new() };
        assert(views(t.containers@) =~= Seq::<Seq<char>>::empty());
        assert(views(t.networks@) =~= Seq::<Seq<char>>::empty());
        t
    }

    /// Adds a container id at the end.
    pub fn add_container(&mut self, id: &str)
        ensures
            final(self).containers_view() == old(self).containers_view().push(id@),
            final(self).networks_view() == old(self).networks_view(),
    {
        let ghost before = self.containers@;
        self.containers.push(owned(id));
        assert(views(self.containers@) =~= views(before).push(id@));
    }

    /// Removes every occurrence of a container id.
    pub fn remove_container(&mut self, id: &str)
        ensures
            final(self).containers_view() == without(old(self).containers_view(), id@),
            final(self).networks_view() == old(self).networks_view(),
    {
        remove_all(&mut self.containers, id);
    }

    /// Adds a network id at the end.
    pub fn add_network(&mut self, id: &str)
        ensures
            final(self).networks_view() == old(self).networks_view().push(id@),
            final(self).containers_view() == old(self).containers_view(),
    {
        let ghost before = self.networks@;
        self.networks.push(owned(id));
        assert(views(self.networks@) =~= views(before).push(id@));
    }

    /// Removes every occurrence of a network id.
    pub fn remove_network(&mut self, id: &str)
        ensures
            final(self).networks_view() == without(old(self).networks_view(), id@),
            final(self).containers_view() == old(self).containers_view(),
    {
        remove_all(&mut self.networks, id);
    }

    /// A copy of the tracked container ids.
    pub fn containers(&self) -> (r: Vec<String>)
        ensures
            views(r@) == self.containers_view(),
    {
        copy_names(&self.containers)
    }

    /// A copy of the tracked network ids.
    pub fn networks(&self) -> (r: Vec<String>)
        ensures
            views(r@) == self.networks_view(),
    {
        copy_names(&self.networks)
    }
}

/// A copy of a list of names.
pub fn copy_names(v: &Vec<String>) -> (r: Vec<String>)
    ensures
        views(r@) == views(v@),
{
    let mut r: Vec<String> = Vec::new();
    let mut i: usize = 0;
    while i < v.len()
        invariant
            i <= v@.len(),
            views(r@) == views(v@).take(i as int),
        decreases v.len() - i,
    {
        let ghost before = r@;
        r.push(v[i].clone());
        assert(views(r@) =~= views(before).push(v@[i as int]@));
        assert(views(v@).take(i + 1) =~= views(v@).take(i as int).push(v@[i as int]@));
        i = i + 1;
    }
    assert(views(v@).take(v@.len() as int) =~= views(v@));
    r
}

/// The key of a language-specific image: the image name for a known
/// language and a version, `language:version` for another language, or the
/// language alone without a version.
pub open spec fn language_image_key(language: Seq<char>, version: Option<Seq<char>>) -> Seq<char> {
    match version {
        Some(v) => if language == "python"@ {
            "python:"@ + v
        } else if language == "node"@ {
            "node:"@ + v
        } else if language == "java"@ {
            "eclipse-temurin:"@ + v
        } else if language == "go"@ {
            "golang:"@ + v
        } else if language == "dotnet"@ {
            "mcr.microsoft.com/dotnet/sdk:"@ + v
        } else if language == "rust"@ {
            "rust:"@ + v
        } else {
            language + ":"@ + v
        },
        None => language,
    }
}

/// Computes [`language_image_key`].
pub fn language_image_key_exec(language: &str, version: Option<&str>) -> (r: String)
    ensures
        r@ == language_image_key(language@, match version { Some(v) => Some(v@), None => None }),
{
    match version {
        Some(v) => {
            let mut r = if str_eq(language, "python") {
                owned("python:")
            } else if str_eq(language, "node") {
                owned("node:")
            } else if str_eq(language, "java") {
                owned("eclipse-temurin:")
            } else if str_eq(language, "go") {
                owned("golang:")
            } else if str_eq(language, "dotnet") {
                owned("mcr.microsoft.com/dotnet/sdk:")
            } else if str_eq(language, "rust") {
                owned("rust:")
            } else {
                let mut k = owned(language);
                push_str(&mut k, ":");
                k
            };
            push_str(&mut r, v);
            r
        },
        None => owned(language),
    }
}

/// `base:customization`, the key of a customised image.
pub open spec fn customized_key(base: Seq<char>, customization: Seq<char>) -> Seq<char> {
    base + ":"@ + customization
}

/// The images built for a run, by key.
pub struct ImageCache {
    pub images: StrMap<String>,
}

impl ImageCache {
    /// No images.
    pub fn new() -> (c: ImageCache)
        ensures
            c.images@ == Map::<Seq<char>, String>::empty(),
    {
        ImageCache { images: StrMap::new() }
    }

    /// The customised image recorded for `base_image` and `customization`.
    pub fn get_customized_image(&self, base_image: &str, customization: &str) -> (r: Option<String>)
        ensures
            match r {
                Some(v) => self.images@.dom().contains(customized_key(base_image@, customization@))
                    && v@ == self.images@[customized_key(base_image@, customization@)]@,
                None => !self.images@.dom().contains(customized_key(base_image@, customization@)),
            },
    {
        let mut key = owned(base_image);
        push_str(&mut key, ":");
        push_str(&mut key, customization);
        match self.images.get(key.as_str()) {
            Some(v) => Some(v.clone()),
            None => None,
        }
    }

    /// Records the customised image for `base_image` and `customization`.
    pub fn set_customized_image(&mut self, base_image: &str, customization: &str, new_image: &str)
        ensures
            final(self).images@.dom() == old(self).images@.dom().insert(customized_key(base_image@, customization@)),
            final(self).images@[customized_key(base_image@, customization@)]@ == new_image@,
            forall|k: Seq<char>| k != customized_key(base_image@, customization@) && old(self).images@.dom().contains(k)
                ==> final(self).images@[k] == old(self).images@[k],
    {
        let mut key = owned(base_image);
        push_str(&mut key, ":");
        push_str(&mut key, customization);
        self.images.insert(key, owned(new_image));
    }

    /// A recorded key that starts with `prefix`, if there is one.
    pub fn find_customized_image_key(&self, prefix: &str) -> (r: Option<String>)
        ensures
            match r {
                Some(k) => self.images@.dom().contains(k@) && has_prefix(k@, prefix@),
                None => forall|k: Seq<char>| self.images@.dom().contains(k) ==> !has_prefix(k, prefix@),
            },
    {
        let keys = self.images.keys();
        let mut i: usize = 0;
        proof {
            use_type_invariant(&self.images);
            self.images.lemma_wf();
        }
        while i < keys.len()
            invariant
                i <= keys@.len(),
                views(keys@) == self.images.key_seq(),
                self.images.key_seq().to_set() == self.images@.dom(),
                forall|j: int| 0 <= j < i ==> !has_prefix(#[trigger] views(keys@)[j], prefix@),
            decreases keys.len() - i,
        {
            assert(views(keys@)[i as int] == keys@[i as int]@);
            if str_starts_with(keys[i].as_str(), prefix) {
                assert(self.images.key_seq().contains(keys@[i as int]@));
                return Some(keys[i].clone());
            }
            i = i + 1;
        }
        proof {
            assert forall|k: Seq<char>| self.images@.dom().contains(k) implies !has_prefix(k, prefix@) by {
                assert(self.images.key_seq().to_set().contains(k));
                let j = choose|j: int| 0 <= j < self.images.key_seq().len() && self.images.key_seq()[j] == k;
                assert(views(keys@)[j] == k);
            }
        }
        None
    }

    /// The language-specific image recorded for a language and version.
    pub fn get_language_specific_image(&self, language: &str, version: Option<&str>) -> (r: Option<String>)
        ensures
            ({
                let key = language_image_key(language@, match version { Some(v) => Some(v@), None => None });
                match r {
                    Some(v) => self.images@.dom().contains(key) && v@ == self.images@[key]@,
                    None => !self.images@.dom().contains(key),
                }
            }),
    {
        let key = language_image_key_exec(language, version);
        match self.images.get(key.as_str()) {
            Some(v) => Some(v.clone()),
            None => None,
        }
    }

    /// Records the language-specific image for a language and version.
    pub fn set_language_specific_image(&mut self, language: &str, version: Option<&str>, new_image: &str)
        ensures
            ({
                let key = language_image_key(language@, match version { Some(v) => Some(v@), None => None });
                &&& final(self).images@.dom() == old(self).images@.dom().insert(key)
                &&& final(self).images@[key]@ == new_image@
                &&& forall|k: Seq<char>| k != key && old(self).images@.dom().contains(k) ==> final(self).images@[k] == old(self).images@[k]
            }),
    {
        let key = language_image_key_exec(language, version);
        self.images.insert(key, owned(new_image));
    }
}

} // verus!
