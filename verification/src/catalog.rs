//! The saved themes: which ones exist, and which one was chosen last.
//!
//! Themes are files `<name>.toml` in the themes directory, and the choice
//! is a bare name recorded in a file of its own. Listing the directory and
//! reading the file are the application's; what the names and the record
//! mean is decided here.
use vstd::prelude::*;
use crate::text::{chars_of, ends_with, same_chars, slice, string_of, trim, trim_exec};

verus! {

broadcast use vstd::seq_lib::group_to_multiset_ensures;

/// The extension a theme file carries.
pub open spec fn toml_ext() -> Seq<char> {
    seq!['.', 't', 'o', 'm', 'l']
}

/// The theme a file of the themes directory holds, by its file name: the
/// stem of a name whose extension is `toml`. A name that is nothing but
/// the extension (a hidden file `.toml`) has no extension, and holds none.
pub open spec fn theme_stem(name: Seq<char>) -> Option<Seq<char>> {
    if name.len() > toml_ext().len() && ends_with(name, toml_ext()) {
        Some(name.subrange(0, name.len() - toml_ext().len()))
    } else {
        None
    }
}

/// The themes among a list of file names, in the list's order.
pub open spec fn theme_stems(names: Seq<Seq<char>>) -> Seq<Seq<char>>
    decreases names.len(),
{
    if names.len() == 0 {
        Seq::empty()
    } else {
        let rest = theme_stems(names.drop_last());
        match theme_stem(names.last()) {
            Some(s) => rest.push(s),
            None => rest,
        }
    }
}

/// The texts of a list of strings.
pub open spec fn texts(v: Seq<String>) -> Seq<Seq<char>> {
    v.map_values(|s: String| s@)
}

/// `a` sorts at or before `b` when both are compared from position `i`
/// on: character by character, by code point, a text sorting before every
/// longer text that it begins.
pub open spec fn lex_le_from(a: Seq<char>, b: Seq<char>, i: int) -> bool
    decreases a.len() - i,
{
    if i >= a.len() {
        true
    } else if i >= b.len() {
        false
    } else if a[i] != b[i] {
        a[i] < b[i]
    } else {
        lex_le_from(a, b, i + 1)
    }
}

/// The order `String`s sort in: by code point, position by position,
/// which is the order of their UTF-8 bytes.
pub open spec fn lex_le(a: Seq<char>, b: Seq<char>) -> bool {
    lex_le_from(a, b, 0)
}

/// A list in that order.
pub open spec fn sorted(s: Seq<Seq<char>>) -> bool {
    forall|i: int, j: int| 0 <= i < j < s.len() ==> lex_le(#[trigger] s[i], #[trigger] s[j])
}

/// Of any two texts, one sorts at or before the other.
pub proof fn lemma_lex_total(a: Seq<char>, b: Seq<char>, i: int)
    requires
        0 <= i,
    ensures
        lex_le_from(a, b, i) || lex_le_from(b, a, i),
    decreases a.len() - i,
{
    if i < a.len() && i < b.len() && a[i] == b[i] {
        lemma_lex_total(a, b, i + 1);
    }
}

/// The order is transitive.
pub proof fn lemma_lex_trans(a: Seq<char>, b: Seq<char>, c: Seq<char>, i: int)
    requires
        0 <= i,
        lex_le_from(a, b, i),
        lex_le_from(b, c, i),
    ensures
        lex_le_from(a, c, i),
    decreases a.len() - i,
{
    if i < a.len() && i < b.len() && i < c.len() && a[i] == b[i] && b[i] == c[i] {
        lemma_lex_trans(a, b, c, i + 1);
    }
}

/// `lex_le` on two character vectors.
fn lex_le_exec(a: &Vec<char>, b: &Vec<char>) -> (r: bool)
    ensures
        r == lex_le(a@, b@),
{
    let mut i: usize = 0;
    while i < a.len() && i < b.len() && a[i] == b[i]
        invariant
            i <= a.len(),
            i <= b.len(),
            lex_le_from(a@, b@, 0) == lex_le_from(a@, b@, i as int),
        decreases a.len() - i,
    {
        i = i + 1;
    }
    if i == a.len() {
        true
    } else if i == b.len() {
        false
    } else {
        a[i] < b[i]
    }
}

/// The theme a file name holds, if any.
fn stem_of(name: &str) -> (r: Option<Vec<char>>)
    ensures
        match theme_stem(name@) {
            Some(s) => r matches Some(v) && v@ == s,
            None => r is None,
        },
{
    let v = chars_of(name);
    let n = v.len();
    if n <= 5 {
        return None;
    }
    let tail = slice(&v, n - 5, n);
    let ext = vec!['.', 't', 'o', 'm', 'l'];
    assert(ext@ =~= toml_ext());
    if !same_chars(&tail, &ext) {
        assert(!ends_with(v@, toml_ext())) by {
            assert(v@.skip(n - 5) =~= tail@);
        }
        return None;
    }
    assert(v@.skip(n - 5) =~= tail@);
    Some(slice(&v, 0, n - 5))
}

/// Where `x` goes in a sorted list: after every entry that sorts at or
/// before it.
fn insertion_point(sorted_list: &Vec<Vec<char>>, x: &Vec<char>) -> (k: usize)
    requires
        sorted(sorted_list@.map_values(|v: Vec<char>| v@)),
    ensures
        k <= sorted_list.len(),
        forall|j: int| 0 <= j < k ==> lex_le(#[trigger] sorted_list@[j]@, x@),
        k < sorted_list.len() ==> !lex_le(sorted_list@[k as int]@, x@),
{
    let mut k: usize = 0;
    while k < sorted_list.len() && lex_le_exec(&sorted_list[k], x)
        invariant
            k <= sorted_list.len(),
            forall|j: int| 0 <= j < k ==> lex_le(#[trigger] sorted_list@[j]@, x@),
        decreases sorted_list.len() - k,
    {
        k = k + 1;
    }
    k
}

/// Every theme among the files of the themes directory, by name, sorted.
///
/// `file_names` are the directory's entries by file name; the result
/// holds the stem of each whose extension is `toml`, as many times as it
/// occurs, in `String` order.
pub fn theme_names(file_names: &Vec<String>) -> (names: Vec<String>)
    ensures
        sorted(texts(names@)),
        texts(names@).to_multiset() == theme_stems(texts(file_names@)).to_multiset(),
{
    let ghost all = texts(file_names@);
    let mut list: Vec<Vec<char>> = Vec::new();
    let mut i: usize = 0;
    while i < file_names.len()
        invariant
            i <= file_names.len(),
            all == texts(file_names@),
            sorted(list@.map_values(|v: Vec<char>| v@)),
            list@.map_values(|v: Vec<char>| v@).to_multiset() == theme_stems(all.take(i as int)).to_multiset(),
        decreases file_names.len() - i,
    {
        assert(all.take(i + 1).drop_last() =~= all.take(i as int));
        assert(all.take(i + 1).last() == file_names@[i as int]@);
        match stem_of(file_names[i].as_str()) {
            Some(stem) => {
                let ghost before = list@.map_values(|v: Vec<char>| v@);
                let k = insertion_point(&list, &stem);
                list.insert(k, stem);
                let ghost after = list@.map_values(|v: Vec<char>| v@);
                assert(after =~= before.insert(k as int, stem@));
                assert forall|a: int, b: int| 0 <= a < b < after.len() implies lex_le(
                    #[trigger] after[a],
                    #[trigger] after[b],
                ) by {
                    if b == k {
                        assert(after[a] == before[a]);
                    } else if a == k {
                        assert(after[b] == before[b - 1]);
                        lemma_lex_total(before[k as int], stem@, 0);
                        if b - 1 > k {
                            lemma_lex_trans(stem@, before[k as int], before[b - 1], 0);
                        }
                    } else if a < k && b > k {
                        assert(after[a] == before[a]);
                        assert(after[b] == before[b - 1]);
                    } else if a < k {
                        assert(after[a] == before[a]);
                        assert(after[b] == before[b]);
                    } else {
                        assert(after[a] == before[a - 1]);
                        assert(after[b] == before[b - 1]);
                    }
                }
            },
            None => {},
        }
        i = i + 1;
    }
    assert(all.take(file_names.len() as int) =~= all);
    let mut names: Vec<String> = Vec::new();
    let mut j: usize = 0;
    while j < list.len()
        invariant
            j <= list.len(),
            texts(names@) =~= list@.map_values(|v: Vec<char>| v@).take(j as int),
        decreases list.len() - j,
    {
        let ghost before = names@;
        let s = string_of(&list[j]);
        names.push(s);
        assert(names@ == before.push(s));
        assert(texts(names@) =~= texts(before).push(list@[j as int]@));
        assert(texts(names@) =~= list@.map_values(|v: Vec<char>| v@).take(j + 1));
        j = j + 1;
    }
    assert(texts(names@) =~= list@.map_values(|v: Vec<char>| v@));
    names
}

/// The recorded choice, read back: the record's text without surrounding
/// whitespace, when that is not empty and names one of the `available`
/// themes. A name whose theme has since been deleted gives `None`, and
/// the application starts on its built-in palette.
pub fn selected_name(recorded: &str, available: &Vec<String>) -> (r: Option<String>)
    ensures
        r matches Some(n) ==> n@ == trim(recorded@),
        r is Some <==> (trim(recorded@).len() > 0 && texts(available@).contains(trim(recorded@))),
{
    let v = chars_of(recorded);
    let t = trim_exec(&v);
    if t.len() == 0 {
        return None;
    }
    let mut i: usize = 0;
    while i < available.len()
        invariant
            i <= available.len(),
            t@ == trim(recorded@),
            t.len() > 0,
            forall|j: int| 0 <= j < i ==> available@[j]@ != t@,
        decreases available.len() - i,
    {
        let c = chars_of(available[i].as_str());
        if same_chars(&c, &t) {
            assert(texts(available@)[i as int] == t@);
            assert(texts(available@).contains(t@));
            return Some(string_of(&t));
        }
        i = i + 1;
    }
    assert(!texts(available@).contains(t@));
    None
}

} // verus!
