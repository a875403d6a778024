//! The cache of fetched and copied sources: one directory per key under a
//! root that the caller supplies.

use vstd::prelude::*;
use vstd::string::*;
use crate::path::{join, joined};
use crate::text::{decimal, lemma_numeral_injective, numeral};

verus! {

/// The identity under which a source tree is kept.
#[derive(Debug)]
pub enum CacheKey {
    /// A package of the registry in one version: the same key on every request.
    Versioned { name: String, version: String },
    /// A copy of a directory without a version: a key of its own for each
    /// request, told apart by a number drawn for it.
    Fresh { name: String, suffix: u64 },
}

/// A `CacheKey` with its texts as sequences of characters.
pub enum CacheKeyView {
    Versioned { name: Seq<char>, version: Seq<char> },
    Fresh { name: Seq<char>, suffix: u64 },
}

impl View for CacheKey {
    type V = CacheKeyView;

    open spec fn view(&self) -> CacheKeyView {
        match self {
            CacheKey::Versioned { name, version } => CacheKeyView::Versioned {
                name: name@,
                version: version@,
            },
            CacheKey::Fresh { name, suffix } => CacheKeyView::Fresh {
                name: name@,
                suffix: *suffix,
            },
        }
    }
}

/// The name of the directory that holds the entry of `key`: the package's
/// name, a hyphen, then the version or the number drawn.
pub open spec fn entry_name_of(key: CacheKeyView) -> Seq<char> {
    match key {
        CacheKeyView::Versioned { name, version } => name + seq!['-'] + version,
        CacheKeyView::Fresh { name, suffix } => name + seq!['-'] + numeral(suffix as nat),
    }
}

/// The directory that holds the entry of `key` under `root`.
pub open spec fn entry_path_of(root: Seq<char>, key: CacheKeyView) -> Seq<char> {
    joined(root, entry_name_of(key))
}

/// The file whose lock serialises the work on `entry`.
pub open spec fn lock_path_of(entry: Seq<char>) -> Seq<char> {
    entry + ".lock"@
}

/// The manifest of the source tree under `dir`.
pub open spec fn manifest_in(dir: Seq<char>) -> Seq<char> {
    joined(dir, "Cargo.toml"@)
}

/// The place on disk under which all entries lie. The caller decides where
/// it is and how long it lasts.
#[derive(Debug)]
pub struct CacheRoot {
    pub path: String,
}

impl View for CacheRoot {
    type V = Seq<char>;

    open spec fn view(&self) -> Seq<char> {
        self.path@
    }
}

impl CacheKey {
    /// The name of the directory that holds this key's entry.
    pub fn entry_name(&self) -> (r: String)
        ensures
            r@ == entry_name_of(self@),
    {
        proof {
            reveal_strlit("-");
        }
        match self {
            CacheKey::Versioned { name, version } => {
                let mut r = name.clone();
                r.append("-");
                r.append(version.as_str());
                r
            },
            CacheKey::Fresh { name, suffix } => {
                let mut r = name.clone();
                r.append("-");
                let number = decimal(*suffix);
                r.append(number.as_str());
                r
            },
        }
    }
}

impl CacheRoot {
    /// A cache rooted at `path`.
    pub fn new(path: &str) -> (r: CacheRoot)
        ensures
            r@ == path@,
    {
        CacheRoot { path: String::from_str(path) }
    }

    /// The directory that holds the entry of `key`.
    pub fn path(&self, key: &CacheKey) -> (r: String)
        ensures
            r@ == entry_path_of(self@, key@),
    {
        let name = key.entry_name();
        join(self.path.as_str(), name.as_str())
    }
}

/// The file whose lock serialises the work on `entry`.
pub fn lock_path(entry: &str) -> (r: String)
    ensures
        r@ == lock_path_of(entry@),
{
    let mut r = String::from_str(entry);
    r.append(".lock");
    r
}

/// The manifest of the source tree under `dir`.
pub fn manifest_path(dir: &str) -> (r: String)
    ensures
        r@ == manifest_in(dir@),
{
    join(dir, "Cargo.toml")
}

/// Two keys for the same package that differ in version, or in the number
/// drawn, name different directories, and so do their entries under one root.
pub proof fn lemma_entries_distinct(root: Seq<char>, a: CacheKeyView, b: CacheKeyView)
    requires
        a != b,
        a is Versioned == b is Versioned,
        a is Versioned ==> a->Versioned_name == b->Versioned_name,
        a is Fresh ==> a->Fresh_name == b->Fresh_name,
    ensures
        entry_name_of(a) != entry_name_of(b),
        entry_path_of(root, a) != entry_path_of(root, b),
{
    let x = entry_name_of(a);
    let y = entry_name_of(b);
    let (name, p, q) = match (a, b) {
        (
            CacheKeyView::Versioned { name, version: v },
            CacheKeyView::Versioned { name: _, version: w },
        ) => (name, v, w),
        (CacheKeyView::Fresh { name, suffix: s }, CacheKeyView::Fresh { name: _, suffix: t }) => (
            name,
            numeral(s as nat),
            numeral(t as nat),
        ),
        _ => (Seq::empty(), Seq::empty(), Seq::empty()),
    };
    let head = name + seq!['-'];
    if a is Fresh && p == q {
        lemma_numeral_injective(a->suffix as nat, b->suffix as nat);
    }
    if x == y {
        assert(p =~= (head + p).skip(head.len() as int));
        assert(q =~= (head + q).skip(head.len() as int));
    }
    let px = entry_path_of(root, a);
    let py = entry_path_of(root, b);
    if px == py && x[0] != '/' {
        let base = if root.len() == 0 || root.last() == '/' {
            root
        } else {
            root + seq!['/']
        };
        assert(x =~= (base + x).skip(base.len() as int));
        assert(y =~= (base + y).skip(base.len() as int));
    }
}

} // verus!
