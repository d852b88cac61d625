//! Store scanner: decides which records of a directory walk below the store
//! root are password entries, and derives the display name of each.
//!
//! The walk itself is filesystem work and happens outside the library; it
//! hands over one [`WalkItem`] per visited node, in walk order. The scanner
//! qualifies a record exactly when it is a regular file, no component of its
//! relative path is hidden, and its file name ends in the encryption
//! extension; the entry name is the relative path with that extension
//! stripped and the separators preserved.

use vstd::prelude::*;
use vstd::string::StrSliceExecFns;
use vstd::string::StringExecFns;

verus! {

/// One record of the directory walk below the store root: the visited node's
/// path relative to the root, split into components, and whether the node is
/// a regular file.
pub struct WalkItem {
    pub components: Vec<String>,
    pub is_file: bool,
}

/// Mathematical image of a walk record.
pub struct WalkItemModel {
    pub components: Seq<Seq<char>>,
    pub is_file: bool,
}

impl View for WalkItem {
    type V = WalkItemModel;

    open spec fn view(&self) -> WalkItemModel {
        WalkItemModel { components: self.components.deep_view(), is_file: self.is_file }
    }
}

/// The whole walk, record by record, as mathematical values.
pub open spec fn walk_view(items: Seq<WalkItem>) -> Seq<WalkItemModel> {
    items.map_values(|item: WalkItem| item@)
}

/// A name is hidden when it starts with the hidden-file marker '.'.
pub open spec fn spec_is_hidden_name(name: Seq<char>) -> bool {
    name.len() > 0 && name[0] == '.'
}

/// The suffix that marks an encrypted entry file.
pub open spec fn gpg_suffix() -> Seq<char> {
    seq!['.', 'g', 'p', 'g']
}

/// A file name carries the encryption extension: it ends in ".gpg" and has a
/// non-empty stem before it.
pub open spec fn spec_is_gpg_name(name: Seq<char>) -> bool {
    name.len() > 4 && name.subrange(name.len() - 4, name.len() as int) == gpg_suffix()
}

/// The file name with the encryption extension removed.
pub open spec fn strip_gpg(name: Seq<char>) -> Seq<char> {
    name.subrange(0, name.len() - 4)
}

/// Some component of the relative path is hidden, so the node is itself
/// hidden or lies inside a hidden subtree.
pub open spec fn in_hidden_subtree(components: Seq<Seq<char>>) -> bool {
    exists|i: int| 0 <= i < components.len() && spec_is_hidden_name(components[i])
}

/// Path components joined by '/'.
pub open spec fn join_components(components: Seq<Seq<char>>) -> Seq<char>
    decreases components.len(),
{
    if components.len() <= 1 {
        if components.len() == 0 {
            seq![]
        } else {
            components[0]
        }
    } else {
        join_components(components.drop_last()) + seq!['/'] + components.last()
    }
}

/// The entry name one walk record contributes, if it qualifies.
pub open spec fn spec_entry_name(item: WalkItemModel) -> Option<Seq<char>> {
    if item.is_file && item.components.len() > 0 && !in_hidden_subtree(item.components)
        && spec_is_gpg_name(item.components.last()) {
        Some(
            join_components(
                item.components.update(
                    item.components.len() - 1,
                    strip_gpg(item.components.last()),
                ),
            ),
        )
    } else {
        None
    }
}

/// The scanner on a whole walk: every qualifying record's entry name, in
/// walk order.
pub open spec fn spec_scan(items: Seq<WalkItemModel>) -> Seq<Seq<char>> {
    items.filter_map(|item: WalkItemModel| spec_entry_name(item))
}

/// Does this name start with the hidden-file marker?
pub fn is_hidden_name(name: &str) -> (r: bool)
    ensures
        r == spec_is_hidden_name(name@),
{
    let n = name.unicode_len();
    n > 0 && name.get_char(0) == '.'
}

/// Does this file name end in the encryption extension, with a non-empty
/// stem before it?
pub fn is_gpg_name(name: &str) -> (r: bool)
    ensures
        r == spec_is_gpg_name(name@),
{
    let n = name.unicode_len();
    if n <= 4 {
        return false;
    }
    let r = name.get_char(n - 4) == '.' && name.get_char(n - 3) == 'g' && name.get_char(n - 2)
        == 'p' && name.get_char(n - 1) == 'g';
    proof {
        let tail = name@.subrange(name@.len() - 4, name@.len() as int);
        if r {
            assert(tail =~= gpg_suffix());
        } else {
            assert(tail[0] == name@[name@.len() - 4]);
            assert(tail[1] == name@[name@.len() - 3]);
            assert(tail[2] == name@[name@.len() - 2]);
            assert(tail[3] == name@[name@.len() - 1]);
        }
    }
    r
}

/// The entry name for one walk record, when the record qualifies.
pub fn entry_name(item: &WalkItem) -> (r: Option<String>)
    ensures
        r is Some <==> spec_entry_name(item@) is Some,
        r matches Some(name) ==> spec_entry_name(item@) == Some(name@),
{
    if !item.is_file {
        return None;
    }
    let k = item.components.len();
    if k == 0 {
        return None;
    }
    let mut i: usize = 0;
    while i < k
        invariant
            k == item.components.len(),
            0 <= i <= k,
            forall|j: int| 0 <= j < i ==> !spec_is_hidden_name(item@.components[j]),
        decreases k - i,
    {
        if is_hidden_name(item.components[i].as_str()) {
            assert(item@.components[i as int] == item.components@[i as int]@);
            assert(in_hidden_subtree(item@.components));
            return None;
        }
        assert(item@.components[i as int] == item.components@[i as int]@);
        i += 1;
    }
    assert(!in_hidden_subtree(item@.components));
    let file_name = &item.components[k - 1];
    if !is_gpg_name(file_name.as_str()) {
        return None;
    }
    let ghost stripped = item@.components.update(k - 1, strip_gpg(item@.components.last()));
    let mut name = String::new();
    let mut j: usize = 0;
    while j < k - 1
        invariant
            k == item.components.len(),
            k >= 1,
            0 <= j <= k - 1,
            j == 0 ==> name@ == Seq::<char>::empty(),
            j > 0 ==> name@ == join_components(item@.components.subrange(0, j as int)) + seq!['/'],
        decreases k - 1 - j,
    {
        name.append(item.components[j].as_str());
        name.append("/");
        proof {
            reveal_strlit("/");
            let pre = item@.components.subrange(0, j as int);
            let cur = item@.components.subrange(0, j + 1int);
            assert(cur.drop_last() =~= pre);
            assert(cur.last() == item@.components[j as int]);
            assert(name@ =~= join_components(cur) + seq!['/']);
        }
        j += 1;
    }
    let n = file_name.unicode_len();
    let stem = file_name.substring_char(0, n - 4);
    name.append(stem);
    proof {
        assert(stem@ =~= strip_gpg(item@.components.last()));
        assert(stripped.last() == strip_gpg(item@.components.last()));
        if k == 1 {
            assert(name@ =~= join_components(stripped));
        } else {
            assert(stripped.drop_last() =~= item@.components.subrange(0, k - 1));
            assert(name@ =~= join_components(stripped));
        }
    }
    Some(name)
}

/// The scanner: the ordered entry names of a whole walk, exactly as
/// [`spec_scan`] describes them.
pub fn scan_store(items: &Vec<WalkItem>) -> (r: Vec<String>)
    ensures
        r.deep_view() == spec_scan(walk_view(items@)),
{
    let mut r: Vec<String> = Vec::new();
    let mut i: usize = 0;
    assert(r.deep_view() =~= spec_scan(walk_view(items@).take(0)));
    while i < items.len()
        invariant
            0 <= i <= items.len(),
            r.deep_view() == walk_view(items@).take(i as int).filter_map(
                |item: WalkItemModel| spec_entry_name(item),
            ),
        decreases items.len() - i,
    {
        let ghost prefix = r.deep_view();
        match entry_name(&items[i]) {
            Some(name) => {
                let ghost name_view = name@;
                r.push(name);
                assert(r.deep_view() =~= prefix.push(name_view));
            },
            None => {},
        }
        proof {
            let w = walk_view(items@);
            assert(w[i as int] == items@[i as int]@);
            w.lemma_filter_map_take_succ(|item: WalkItemModel| spec_entry_name(item), i as int);
            assert(r.deep_view() =~= w.take(i + 1).filter_map(
                |item: WalkItemModel| spec_entry_name(item),
            ));
        }
        i += 1;
    }
    proof {
        assert(walk_view(items@).take(items@.len() as int) =~= walk_view(items@));
    }
    r
}

/// Law: the scanner's result holds a name exactly when some walk record
/// qualifies and yields that name; in particular nothing from a hidden
/// subtree, and no non-file and no file without the encryption extension,
/// ever surfaces.
pub proof fn lemma_scanner_exact(items: Seq<WalkItemModel>, name: Seq<char>)
    ensures
        spec_scan(items).contains(name) <==> exists|i: int|
            0 <= i < items.len() && spec_entry_name(items[i]) == Some(name),
    decreases items.len(),
{
    let f = |item: WalkItemModel| spec_entry_name(item);
    if items.len() == 0 {
    } else {
        let rest = items.drop_last();
        lemma_scanner_exact(rest, name);
        assert(forall|i: int| 0 <= i < rest.len() ==> rest[i] == items[i]);
        if spec_scan(items).contains(name) {
            if f(items.last()) == Some(name) {
                assert(spec_entry_name(items[items.len() - 1]) == Some(name));
            } else {
                match f(items.last()) {
                    Some(s) => {
                        assert(spec_scan(items) =~= spec_scan(rest) + seq![s]);
                        assert(spec_scan(rest).contains(name));
                    },
                    None => {
                        assert(spec_scan(items) == spec_scan(rest));
                    },
                }
            }
        }
        if exists|i: int| 0 <= i < items.len() && spec_entry_name(items[i]) == Some(name) {
            let i = choose|i: int| 0 <= i < items.len() && spec_entry_name(items[i]) == Some(name);
            if i == items.len() - 1 {
                match f(items.last()) {
                    Some(s) => {
                        assert(spec_scan(items)[spec_scan(items).len() - 1] == name);
                        assert(spec_scan(items).contains(name));
                    },
                    None => {},
                }
            } else {
                assert(spec_entry_name(rest[i]) == Some(name));
                assert(spec_scan(rest).contains(name));
                let j = choose|j: int|
                    0 <= j < spec_scan(rest).len() && spec_scan(rest)[j] == name;
                match f(items.last()) {
                    Some(s) => {
                        assert(spec_scan(items) =~= spec_scan(rest) + seq![s]);
                        assert(spec_scan(items)[j] == name);
                    },
                    None => {
                        assert(spec_scan(items) == spec_scan(rest));
                    },
                }
                assert(spec_scan(items).contains(name));
            }
        }
    }
}

/// Law: a record inside a hidden subtree never yields an entry, whatever its
/// own name looks like.
pub proof fn lemma_hidden_subtree_absent(item: WalkItemModel)
    requires
        in_hidden_subtree(item.components),
    ensures
        spec_entry_name(item) is None,
{
}

} // verus!
