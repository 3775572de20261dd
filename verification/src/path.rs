//! Unix paths as the byte strings that they are.
use crate::text::lemma_encode_without_slash;
use vstd::prelude::*;
use vstd::utf8::*;

verus! {

/// The byte `/`.
pub const SEPARATOR: u8 = 0x2f;

/// The byte `.`.
pub const DOT: u8 = 0x2e;

/// Whether a path starts at the root.
pub open spec fn absolute(path: Seq<u8>) -> bool {
    path.len() > 0 && path[0] == SEPARATOR
}

/// `part` seen from `base`: an absolute `part` stands for itself, any other is
/// set behind `base` with one separator between them.
pub open spec fn joined(base: Seq<u8>, part: Seq<u8>) -> Seq<u8> {
    if absolute(part) {
        part
    } else if base.len() == 0 || base.last() == SEPARATOR {
        base + part
    } else {
        base.push(SEPARATOR) + part
    }
}

/// Joins `part` to `base`.
pub fn join(base: &[u8], part: &[u8]) -> (path: Vec<u8>)
    ensures
        path@ == joined(base@, part@),
{
    let mut path: Vec<u8> = Vec::new();
    if part.len() > 0 && part[0] == SEPARATOR {
        path.extend_from_slice(part);
        assert(path@ =~= part@);
        return path;
    }
    path.extend_from_slice(base);
    assert(path@ =~= base@);
    if base.len() > 0 && base[base.len() - 1] != SEPARATOR {
        path.push(SEPARATOR);
    }
    let ghost before = path@;
    path.extend_from_slice(part);
    assert(path@ =~= before + part@);
    path
}

/// A path without the separators and the `/.` at its end. The root stays.
pub open spec fn trimmed(path: Seq<u8>) -> Seq<u8>
    decreases path.len(),
{
    if path.len() > 1 && (path.last() == SEPARATOR || (path.last() == DOT && path[path.len() - 2]
        == SEPARATOR)) {
        trimmed(path.drop_last())
    } else {
        path
    }
}

/// Where the name that ends a path starts: behind the last separator.
pub open spec fn name_start(path: Seq<u8>) -> int
    decreases path.len(),
{
    if path.len() == 0 || path.last() == SEPARATOR {
        path.len() as int
    } else {
        name_start(path.drop_last())
    }
}

/// The path without the name that ends it. The root and the empty path have none.
pub open spec fn parent_of(path: Seq<u8>) -> Option<Seq<u8>> {
    let named = trimmed(path);
    if named.len() == 0 || named == seq![SEPARATOR] {
        None
    } else {
        Some(trimmed(named.take(name_start(named))))
    }
}

/// Behind a separator, a name without one starts where it was set.
pub proof fn lemma_name_start_of_joined(dir: Seq<u8>, name: Seq<u8>)
    requires
        dir.len() > 0,
        dir.last() == SEPARATOR,
        !name.contains(SEPARATOR),
    ensures
        name_start(dir + name) == dir.len(),
    decreases name.len(),
{
    if name.len() == 0 {
        assert(dir + name =~= dir);
    } else {
        assert(name[name.len() - 1] == name.last());
        assert(name.contains(name.last()));
        assert((dir + name).drop_last() =~= dir + name.drop_last());
        assert forall|i: int| 0 <= i < name.drop_last().len() implies name.drop_last()[i]
            != SEPARATOR by {
            assert(name.contains(name[i]));
        }
        lemma_name_start_of_joined(dir, name.drop_last());
    }
}

fn trim(path: &[u8]) -> (short: Vec<u8>)
    ensures
        short@ == trimmed(path@),
{
    let mut end: usize = path.len();
    assert(path@.take(end as int) =~= path@);
    while end > 1 && (path[end - 1] == SEPARATOR || (path[end - 1] == DOT && path[end - 2]
        == SEPARATOR))
        invariant
            end <= path.len(),
            trimmed(path@.take(end as int)) == trimmed(path@),
        decreases end,
    {
        assert(path@.take(end as int).drop_last() =~= path@.take(end - 1));
        end = end - 1;
    }
    let mut short: Vec<u8> = Vec::new();
    let kept = vstd::slice::slice_subrange(path, 0, end);
    short.extend_from_slice(kept);
    assert(short@ =~= path@.take(end as int));
    short
}

/// The directory that a path lies in.
pub fn parent(path: &[u8]) -> (dir: Option<Vec<u8>>)
    ensures
        match dir {
            Some(d) => parent_of(path@) == Some(d@),
            None => parent_of(path@) is None,
        },
{
    let named = trim(path);
    if named.len() == 0 {
        return None;
    }
    if named.len() == 1 && named[0] == SEPARATOR {
        assert(named@ =~= seq![SEPARATOR]);
        return None;
    }
    let mut start: usize = named.len();
    assert(named@.take(start as int) =~= named@);
    while start > 0 && named[start - 1] != SEPARATOR
        invariant
            start <= named.len(),
            name_start(named@.take(start as int)) == name_start(named@),
        decreases start,
    {
        assert(named@.take(start as int).drop_last() =~= named@.take(start - 1));
        start = start - 1;
    }
    let dir = vstd::slice::slice_subrange(named.as_slice(), 0, start);
    assert(dir@ =~= named@.take(start as int));
    Some(trim(dir))
}

/// A path of its own with the same bytes.
pub fn copy(path: &[u8]) -> (copied: Vec<u8>)
    ensures
        copied@ == path@,
{
    let mut copied: Vec<u8> = Vec::new();
    copied.extend_from_slice(path);
    assert(copied@ =~= path@);
    copied
}

/// The characters that stand for bytes which are not a text.
pub uninterp spec fn lossy_text(bytes: Seq<u8>) -> Seq<char>;

/// The characters that stand for a path where it is shown to people.
pub open spec fn shown(path: Seq<u8>) -> Seq<char> {
    if valid_utf8(path) {
        decode_utf8(path)
    } else {
        lossy_text(path)
    }
}

/// `String::from_utf8_lossy`: the text that the bytes encode, where they are
/// valid UTF-8. Of other bytes the result is only named; replacement characters
/// stand in it for what is not valid.
#[verifier::external_body]
pub(crate) fn display(path: &[u8]) -> (text: String)
    ensures
        valid_utf8(path@) ==> text@ == decode_utf8(path@),
        !valid_utf8(path@) ==> text@ == lossy_text(path@),
{
    String::from_utf8_lossy(path).into_owned()
}

/// Below one base, relative paths that differ lead to different places.
pub proof fn law_relative_paths_stay_apart(base: Seq<u8>, a: Seq<u8>, b: Seq<u8>)
    requires
        !absolute(a),
        !absolute(b),
    ensures
        joined(base, a) == joined(base, b) <==> a == b,
{
    let prefix = if base.len() == 0 || base.last() == SEPARATOR {
        base
    } else {
        base.push(SEPARATOR)
    };
    if prefix + a == prefix + b {
        assert(a =~= (prefix + a).skip(prefix.len() as int));
        assert(b =~= (prefix + b).skip(prefix.len() as int));
    }
}

/// The first byte of a text is a slash exactly if its first character is.
pub proof fn lemma_first_byte(s: Seq<char>)
    ensures
        absolute(encode_utf8(s)) <==> s.len() > 0 && s[0] == '/',
{
    if s.len() > 0 {
        let head = encode_scalar(s[0] as u32);
        assert(encode_utf8(s) == head + encode_utf8(s.drop_first()));
        char_is_scalar(s[0]);
        assert(head.len() > 0);
        assert(encode_utf8(s)[0] == head[0]);
        if s[0] == '/' {
            assert(0x2fu32 & 0x7f == 0x2fu32) by (bit_vector);
            assert(s[0] as u32 == 0x2fu32);
            assert(head[0] == 0x2fu8);
        } else {
            let first = seq![s[0]];
            lemma_encode_without_slash(first);
            assert(first.drop_first() =~= Seq::<char>::empty());
            assert(encode_utf8(Seq::<char>::empty()) =~= Seq::<u8>::empty());
            assert(encode_utf8(first) == head + encode_utf8(first.drop_first()));
            assert(encode_utf8(first) =~= head);
            assert(head.contains(head[0]));
        }
    }
}

/// A joined path ends with the part. In front of a part that does not start at the
/// root stands the base, whole, with one separator between them unless the base is
/// empty or already ends with one. A part that starts at the root stands alone.
pub proof fn law_joined_path_holds_base_and_part(base: Seq<u8>, part: Seq<u8>)
    ensures
        ({
            let path = joined(base, part);
            let between = path.len() - base.len() - part.len();
            if part.len() > 0 && part[0] == 0x2fu8 {
                path == part
            } else {
                &&& path.len() >= base.len() + part.len()
                &&& path.take(base.len() as int) == base
                &&& path.skip(base.len() as int + between) == part
                &&& (base.len() == 0 || base[base.len() - 1] == 0x2fu8) ==> between == 0
                &&& base.len() > 0 && base[base.len() - 1] != 0x2fu8 ==> between == 1
                    && path[base.len() as int] == 0x2fu8
            }
        }),
{
    let path = joined(base, part);
    let between = path.len() - base.len() - part.len();
    if !absolute(part) {
        assert(path.take(base.len() as int) =~= base);
        assert(path.skip(base.len() as int + between) =~= part);
    }
}

/// The root and the empty path lie in no directory.
pub proof fn law_root_has_no_parent()
    ensures
        parent_of(Seq::<u8>::empty()) is None,
        parent_of(seq![0x2fu8]) is None,
{
}

/// Separators at the end of a path, and single dots behind one, do not change the
/// directory that it lies in.
pub proof fn law_parent_ignores_the_end(path: Seq<u8>)
    requires
        path.len() > 0,
    ensures
        parent_of(path.push(0x2fu8)) == parent_of(path),
        path[path.len() - 1] == 0x2fu8 ==> parent_of(path.push(0x2eu8)) == parent_of(path),
{
    assert(path.push(0x2fu8).drop_last() =~= path);
    assert(path.push(0x2eu8).drop_last() =~= path);
    assert(path.push(0x2eu8)[path.len() - 1] == path[path.len() - 1]);
}

/// A name alone lies in the directory that one is in, a name behind the root in the
/// root, and a name behind a directory in that directory, however many separators and
/// single dots stand between them.
pub proof fn law_parent_is_what_stands_before_the_name(dir: Seq<u8>, name: Seq<u8>)
    requires
        name.len() > 0,
        !name.contains(0x2fu8),
    ensures
        parent_of(name) == Some(Seq::<u8>::empty()),
        name != seq![0x2eu8] ==> parent_of(seq![0x2fu8] + name) == Some(seq![0x2fu8]),
        name != seq![0x2eu8] && dir.len() > 0 && dir[dir.len() - 1] != 0x2fu8 && !(dir.len() > 1
            && dir[dir.len() - 1] == 0x2eu8 && dir[dir.len() - 2] == 0x2fu8) ==> parent_of(
            dir.push(0x2fu8) + name,
        ) == Some(dir),
        name != seq![0x2eu8] && dir.len() > 0 && dir[dir.len() - 1] == 0x2fu8 ==> parent_of(
            dir.push(0x2fu8) + name,
        ) == parent_of(dir + name) && parent_of(dir.push(0x2eu8).push(0x2fu8) + name)
            == parent_of(dir + name),
{
    lemma_name_alone(name);
    if name != seq![0x2eu8] {
        assert(name.len() == 1 ==> name[0] != 0x2eu8) by {
            if name.len() == 1 && name[0] == 0x2eu8 {
                assert(name =~= seq![0x2eu8]);
            }
        }
        lemma_parent_behind_separator(seq![0x2fu8], name);
        if dir.len() > 0 {
            lemma_parent_behind_separator(dir.push(0x2fu8), name);
            assert(dir.push(0x2fu8).drop_last() =~= dir);
            assert(trimmed(dir.push(0x2fu8)) == trimmed(dir));
            if dir[dir.len() - 1] == 0x2fu8 {
                lemma_parent_behind_separator(dir, name);
                let dotted = dir.push(0x2eu8).push(0x2fu8);
                lemma_parent_behind_separator(dotted, name);
                assert(dotted.drop_last() =~= dir.push(0x2eu8));
                assert(dir.push(0x2eu8).drop_last() =~= dir);
                assert(dir.push(0x2eu8)[dir.len() - 1] == 0x2fu8);
                assert(trimmed(dir.push(0x2eu8)) == trimmed(dir));
                assert(trimmed(dotted) == trimmed(dir.push(0x2eu8)));
            } else {
                assert(!(dir.len() > 1 && dir[dir.len() - 1] == 0x2eu8 && dir[dir.len() - 2]
                    == 0x2fu8) ==> trimmed(dir) == dir);
            }
        }
    }
}

proof fn lemma_name_alone(name: Seq<u8>)
    requires
        name.len() > 0,
        !name.contains(0x2fu8),
    ensures
        parent_of(name) == Some(Seq::<u8>::empty()),
{
    assert(name.contains(name[name.len() - 1]));
    assert(name.len() > 1 ==> name.contains(name[name.len() - 2]));
    assert(trimmed(name) == name);
    assert(name != seq![SEPARATOR]) by {
        assert(name.contains(name[0]));
    }
    lemma_no_separator_no_start(name);
    assert(name.take(0) =~= Seq::<u8>::empty());
}

proof fn lemma_no_separator_no_start(name: Seq<u8>)
    requires
        !name.contains(0x2fu8),
    ensures
        name_start(name) == 0,
    decreases name.len(),
{
    if name.len() > 0 {
        assert(name.contains(name[name.len() - 1]));
        assert forall|i: int| 0 <= i < name.drop_last().len() implies name.drop_last()[i]
            != 0x2fu8 by {
            assert(name.contains(name[i]));
        }
        lemma_no_separator_no_start(name.drop_last());
    }
}

proof fn lemma_parent_behind_separator(dir: Seq<u8>, name: Seq<u8>)
    requires
        dir.len() > 0,
        dir.last() == SEPARATOR,
        name.len() > 0,
        !name.contains(0x2fu8),
        name.len() == 1 ==> name[0] != 0x2eu8,
    ensures
        parent_of(dir + name) == Some(trimmed(dir)),
{
    let path = dir + name;
    assert(name.contains(name[name.len() - 1]));
    assert(name.len() > 1 ==> name.contains(name[name.len() - 2]));
    assert(trimmed(path) == path);
    assert(path.len() > 1);
    lemma_name_start_of_joined(dir, name);
    assert(path.take(dir.len() as int) =~= dir);
}

/// A path that is a text is shown as that text, and only one that is none is shown
/// with losses.
pub proof fn law_text_is_shown_as_it_is(text: Seq<char>, path: Seq<u8>)
    ensures
        shown(encode_utf8(text)) == text,
        valid_utf8(path) ==> encode_utf8(shown(path)) == path,
        !valid_utf8(path) ==> shown(path) == lossy_text(path),
{
    if valid_utf8(path) {
        decode_utf8_encode_utf8(path);
    }
    encode_utf8_valid_utf8(text);
    encode_utf8_decode_utf8(text);
}

} // verus!
