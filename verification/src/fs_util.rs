//! Paths as text: normalising them, and the place of a key in a store.

use crate::text::{
    chars_of, hexadecimal, hexadecimal_text, string_of_range, trim_start_matches, without_leading,
};
use std::collections::hash_map::DefaultHasher;
use std::hash::Hasher;
use vstd::prelude::*;
use vstd::std_specs::hash::DefaultHasherAdditionalSpecFns;

verus! {

/// What a component of a path is.
#[derive(Debug, Clone, Copy, PartialEq, Eq, Hash, Structural)]
pub enum ComponentKind {
    /// A prefix such as a drive letter.
    Prefix,
    /// The root directory.
    RootDir,
    /// The directory itself, `.`.
    CurDir,
    /// The parent directory, `..`.
    ParentDir,
    /// A name.
    Normal,
}

/// One component of a path, with its text.
#[derive(Debug, Clone, PartialEq, Eq)]
pub struct Component {
    pub kind: ComponentKind,
    pub text: String,
}

/// The mathematical value of a `Component`.
pub struct ComponentView {
    pub kind: ComponentKind,
    pub text: Seq<char>,
}

impl View for Component {
    type V = ComponentView;

    open spec fn view(&self) -> ComponentView {
        ComponentView { kind: self.kind, text: self.text@ }
    }
}

/// The views of `parts`, in order.
pub open spec fn components_view(parts: Seq<Component>) -> Seq<ComponentView> {
    Seq::new(parts.len(), |i: int| parts[i]@)
}

/// The components that `std::path::Path::components` gives for `path`, on
/// the platform that the library is built for.
pub uninterp spec fn path_components(path: Seq<char>) -> Seq<ComponentView>;

/// The text of the path that is made by pushing the texts `parts` onto an
/// empty `std::path::PathBuf`, one after the other, on the platform that the
/// library is built for.
pub uninterp spec fn path_of_parts(parts: Seq<Seq<char>>) -> Seq<char>;

/// Whether `std::path::Path::is_absolute` holds of `path`, on the platform
/// that the library is built for.
pub uninterp spec fn path_is_absolute(path: Seq<char>) -> bool;

/// The text of the path that `std::path::Path::join` makes of `base` and
/// `path`, on the platform that the library is built for.
pub uninterp spec fn path_joined(base: Seq<char>, path: Seq<char>) -> Seq<char>;

/// Calls `Path::components`, which splits a path into its prefix, its root
/// and its names, and hands each component out with its kind and its text.
/// The contract only names what comes back.
#[verifier::external_body]
fn split_path(path: &str) -> (out: Vec<Component>)
    ensures
        components_view(out@) == path_components(path@),
{
    std::path::Path::new(path).components().map(
        |c| Component {
            kind: match c {
                std::path::Component::Prefix(_) => ComponentKind::Prefix,
                std::path::Component::RootDir => ComponentKind::RootDir,
                std::path::Component::CurDir => ComponentKind::CurDir,
                std::path::Component::ParentDir => ComponentKind::ParentDir,
                std::path::Component::Normal(_) => ComponentKind::Normal,
            },
            text: c.as_os_str().to_string_lossy().into_owned(),
        },
    ).collect()
}

/// Collects the texts into a `PathBuf`, which pushes each onto the path made
/// so far, and gives the text of the result. The contract only names it.
#[verifier::external_body]
fn build_path(parts: &Vec<String>) -> (out: String)
    ensures
        out@ == path_of_parts(Seq::new(parts@.len(), |i: int| parts@[i]@)),
{
    parts.iter().collect::<std::path::PathBuf>().to_string_lossy().into_owned()
}

/// Calls `Path::is_absolute`. The contract only names what comes back.
#[verifier::external_body]
fn is_absolute(path: &str) -> (out: bool)
    ensures
        out == path_is_absolute(path@),
{
    std::path::Path::new(path).is_absolute()
}

/// Calls `Path::join`, which adjoins `path` to `base`. The contract only
/// names the text of what comes back.
#[verifier::external_body]
fn join_path(base: &str, path: &str) -> (out: String)
    ensures
        out@ == path_joined(base@, path@),
{
    std::path::Path::new(base).join(path).to_string_lossy().into_owned()
}

/// The components that are left of `kept` and one more component `part`: the
/// directory itself adds nothing, the parent directory takes the last name
/// away where there is one, everything else is added.
pub open spec fn normalize_step(kept: Seq<ComponentView>, part: ComponentView) -> Seq<
    ComponentView,
> {
    match part.kind {
        ComponentKind::CurDir => kept,
        ComponentKind::ParentDir => if kept.len() > 0 && kept.last().kind
            == ComponentKind::Normal {
            kept.drop_last()
        } else {
            kept
        },
        _ => kept.push(part),
    }
}

/// The components that are left of the first `n` of `parts` when `.` and
/// `..` are resolved without looking at the file system.
pub open spec fn normalized_prefix(parts: Seq<ComponentView>, n: nat) -> Seq<ComponentView>
    decreases n,
{
    if n == 0 || n > parts.len() {
        Seq::empty()
    } else {
        normalize_step(normalized_prefix(parts, (n - 1) as nat), parts[n - 1])
    }
}

/// The components that are left of `parts` when `.` and `..` are resolved
/// without looking at the file system.
pub open spec fn normalized(parts: Seq<ComponentView>) -> Seq<ComponentView> {
    normalized_prefix(parts, parts.len())
}

/// The texts of `parts`, in order.
pub open spec fn texts_of(parts: Seq<ComponentView>) -> Seq<Seq<char>> {
    Seq::new(parts.len(), |i: int| parts[i].text)
}

/// Resolves the `.` and `..` among `parts` without looking at the file
/// system. Nothing is taken away above the root or above the start of a
/// relative path.
pub fn normalize_components(parts: Vec<Component>) -> (out: Vec<Component>)
    ensures
        components_view(out@) == normalized(components_view(parts@)),
{
    let ghost all = components_view(parts@);
    let mut kept: Vec<Component> = Vec::new();
    let mut rest = parts;
    let mut n: usize = 0;
    // The components are taken in order: `pending` holds them back to front.
    let mut pending: Vec<Component> = Vec::new();
    while rest.len() > 0
        invariant
            pending@ + rest@.reverse() == parts@.reverse(),
        decreases rest.len(),
    {
        let ghost before = rest@;
        let last = rest.pop().unwrap();
        pending.push(last);
        proof {
            assert(before.reverse() =~= seq![last] + rest@.reverse());
            assert(pending@ + rest@.reverse() =~= parts@.reverse());
        }
    }
    proof {
        assert(rest@.reverse() =~= Seq::<Component>::empty());
        assert(pending@ =~= parts@.reverse());
        assert(components_view(kept@) =~= normalized_prefix(all, 0));
    }
    while pending.len() > 0
        invariant
            n + pending.len() == parts.len(),
            all == components_view(parts@),
            forall|j: int| 0 <= j < pending.len() ==> pending@[j] == parts@[parts.len() - 1 - j],
            components_view(kept@) == normalized_prefix(all, n as nat),
        decreases pending.len(),
    {
        let ghost acc = components_view(kept@);
        let part = pending.pop().unwrap();
        assert(part == parts@[n as int]);
        assert(part@ == all[n as int]);
        match part.kind {
            ComponentKind::CurDir => {},
            ComponentKind::ParentDir => {
                if kept.len() > 0 && kept[kept.len() - 1].kind == ComponentKind::Normal {
                    kept.pop();
                    proof {
                        assert(components_view(kept@) =~= acc.drop_last());
                    }
                }
            },
            _ => {
                kept.push(part);
                proof {
                    assert(components_view(kept@) =~= acc.push(part@));
                }
            },
        }
        n += 1;
    }
    kept
}

/// Normalises the components of `path`: `.` and `..` are resolved, links
/// are not followed and nothing is looked up.
pub fn normalize_path(path: &str) -> (out: String)
    ensures
        out@ == path_of_parts(texts_of(normalized(path_components(path@)))),
{
    let parts = normalize_components(split_path(path));
    let mut texts: Vec<String> = Vec::new();
    let mut i: usize = 0;
    while i < parts.len()
        invariant
            i <= parts.len(),
            texts.len() == i,
            forall|j: int| 0 <= j < i ==> texts@[j]@ == parts@[j].text@,
        decreases parts.len() - i,
    {
        texts.push(parts[i].text.clone());
        i += 1;
    }
    proof {
        assert(Seq::new(texts@.len(), |i: int| texts@[i]@) =~= texts_of(components_view(parts@)));
    }
    build_path(&texts)
}

/// The path that `path` names from the working directory `cwd`, in its
/// normal form: an absolute path stands for itself, a relative one is taken
/// from `cwd`.
pub fn resolve_from_cwd(path: &str, cwd: &str) -> (out: String)
    ensures
        out@ == path_of_parts(
            texts_of(
                normalized(
                    path_components(
                        if path_is_absolute(path@) {
                            path@
                        } else {
                            path_joined(cwd@, path@)
                        },
                    ),
                ),
            ),
        ),
{
    if is_absolute(path) {
        normalize_path(path)
    } else {
        let joined = join_path(cwd, path);
        normalize_path(joined.as_str())
    }
}

/// The marker that opens an extended-length path.
pub open spec fn unc_prefix() -> Seq<char> {
    "\\\\?\\"@
}

/// The form in which a canonical path is handed on: on Windows without the
/// marker of an extended-length path, elsewhere as it is. `canonical` is the
/// path as the file system gave it.
pub fn canonicalize_path(canonical: &str, windows: bool) -> (out: String)
    ensures
        out@ == if windows {
            without_leading(canonical@, unc_prefix())
        } else {
            canonical@
        },
{
    if windows {
        trim_start_matches(canonical, "\\\\?\\")
    } else {
        String::from_str(canonical)
    }
}

/// What the `Hash` impl of `str` writes to a hasher for the text `key`, in
/// the release of the standard library that the library is built with.
pub uninterp spec fn text_hash_writes(key: Seq<char>) -> Seq<Seq<u8>>;

/// Calls `<str as Hash>::hash`, which feeds the text to the hasher. The
/// contract only names the writes that the hasher receives.
#[verifier::external_body]
fn feed_text(key: &str, state: &mut DefaultHasher)
    ensures
        final(state)@ == old(state)@ + text_hash_writes(key@),
{
    std::hash::Hash::hash(key, state)
}

/// The hash of `key` under the default hasher with its fixed keys, as a
/// hexadecimal numeral.
pub open spec fn hash_text(key: Seq<char>) -> Seq<char> {
    hexadecimal_text(DefaultHasher::spec_finish(text_hash_writes(key)) as nat)
}

/// The hash of `key`, as a hexadecimal numeral.
pub fn get_hash_from_key(key: &str) -> (out: String)
    ensures
        out@ == hash_text(key@),
{
    let mut hasher = DefaultHasher::new();
    feed_text(key, &mut hasher);
    proof {
        assert(Seq::<Seq<u8>>::empty() + text_hash_writes(key@) =~= text_hash_writes(key@));
    }
    hexadecimal(hasher.finish())
}

/// The place of a hash below the base of a store: a directory named by its
/// first two digits, in it one named by the next two, in that a file named
/// by the rest.
pub open spec fn hash_path_text(hash: Seq<char>) -> Seq<char> {
    hash.subrange(0, 2) + seq!['/'] + hash.subrange(2, 4) + seq!['/'] + hash.skip(4)
}

fn hash_path(hash: &str) -> (out: String)
    requires
        hash@.len() >= 4,
    ensures
        out@ == hash_path_text(hash@),
{
    let chars = chars_of(hash);
    let mut out = string_of_range(&chars, 0, 2);
    out.push('/');
    out.append(string_of_range(&chars, 2, 4).as_str());
    out.push('/');
    out.append(string_of_range(&chars, 4, chars.len()).as_str());
    proof {
        assert(chars@.subrange(4, chars.len() as int) =~= chars@.skip(4));
        assert(out@ =~= hash_path_text(hash@));
    }
    out
}

/// The path under which the store at `base` keeps `key`. The hash of the
/// key has to have four digits at least.
pub fn to_hash_path(base: &str, key: &str) -> (out: String)
    requires
        hash_text(key@).len() >= 4,
    ensures
        out@ == path_joined(base@, hash_path_text(hash_text(key@))),
{
    let hash = get_hash_from_key(key);
    let relative = hash_path(hash.as_str());
    join_path(base, relative.as_str())
}

/// The path under which the store at `base` keeps `key`, or `None` where
/// the hash of the key has fewer than four digits and so names no place.
pub fn try_to_hash_path(base: &str, key: &str) -> (out: Option<String>)
    ensures
        match out {
            Some(path) => hash_text(key@).len() >= 4 && path@ == path_joined(
                base@,
                hash_path_text(hash_text(key@)),
            ),
            None => hash_text(key@).len() < 4,
        },
{
    let hash = get_hash_from_key(key);
    if hash.as_str().unicode_len() >= 4 {
        Some(to_hash_path(base, key))
    } else {
        None
    }
}

} // verus!
