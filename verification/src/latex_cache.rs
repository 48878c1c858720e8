use vstd::prelude::*;
use vstd::hash_map::StringHashMap;

verus! {

/// Rendered equations by name: each equation is rendered once and kept until the
/// cache is invalidated (for example when the colour theme changes).
#[verifier::reject_recursive_types(V)]
pub struct LatexCache<V> {
    entries: StringHashMap<V>,
}

impl<V> View for LatexCache<V> {
    type V = Map<Seq<char>, V>;

    closed spec fn view(&self) -> Map<Seq<char>, V> {
        self.entries@
    }
}

impl<V> LatexCache<V> {
    /// An empty cache.
    pub fn new() -> (c: LatexCache<V>)
        ensures
            c@ == Map::<Seq<char>, V>::empty(),
    {
        LatexCache { entries: StringHashMap::new() }
    }

    /// The equation cached under `key`, handed out without rendering when it is there.
    /// If there is none, `render` is called once and what it renders is kept under
    /// `key`; when rendering fails nothing is kept and the result is `None`. (`render`
    /// need only be callable when the key is missing, so a hit never renders.)
    pub fn get_or_render<F: FnOnce() -> Option<V>>(&mut self, key: &str, render: F) -> (out:
        Option<&V>)
        requires
            !old(self)@.contains_key(key@) ==> render.requires(()),
        ensures
            old(self)@.contains_key(key@) ==> final(self)@ == old(self)@,
            forall|k: Seq<char>| #[trigger]
                old(self)@.contains_key(k) ==> final(self)@.contains_key(k) && final(self)@[k]
                    == old(self)@[k],
            !old(self)@.contains_key(key@) ==> exists|r: Option<V>|
                #[trigger] render.ensures((), r) && match r {
                    Some(v) => final(self)@ == old(self)@.insert(key@, v),
                    None => final(self)@ == old(self)@,
                },
            match out {
                Some(v) => final(self)@.contains_key(key@) && *v == final(self)@[key@],
                None => !final(self)@.contains_key(key@),
            },
    {
        if !self.entries.contains_key(key) {
            let rendered = render();
            match rendered {
                Some(v) => {
                    self.entries.insert(String::from_str(key), v);
                },
                None => {},
            }
        }
        self.entries.get(key)
    }

    /// Drops every cached equation when the colour theme has changed since `last_dark`
    /// was recorded, and hands back the current theme to record.
    pub fn sync_theme(&mut self, last_dark: bool, dark: bool) -> (recorded: bool)
        ensures
            recorded == dark,
            dark != last_dark ==> final(self)@ == Map::<Seq<char>, V>::empty(),
            dark == last_dark ==> final(self)@ == old(self)@,
    {
        if dark != last_dark {
            self.invalidate();
        }
        dark
    }

    /// Drops every cached equation.
    pub fn invalidate(&mut self)
        ensures
            final(self)@ == Map::<Seq<char>, V>::empty(),
    {
        self.entries.clear();
    }
}

} // verus!
