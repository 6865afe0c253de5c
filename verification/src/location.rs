//! Where blobs lie in the object store.
use crate::text;
use taquba::object_store::path::Path;
use vstd::prelude::*;

verus! {

/// Declares `object_store::path::Path`, the name of a blob in the store.
#[verifier::external_type_specification]
#[verifier::external_body]
pub struct ExPath(Path);

/// The text of a path: its segments, separated by `/`.
pub uninterp spec fn path_text(path: Path) -> Seq<char>;

/// A character that every object store takes in a name as it is.
pub open spec fn is_plain_char(c: char) -> bool {
    ||| 'a' <= c <= 'z'
    ||| 'A' <= c <= 'Z'
    ||| '0' <= c <= '9'
    ||| c == '-'
    ||| c == '_'
    ||| c == '.'
}

/// A string that stands in a path as it is: plain characters only, and not one
/// of the relative segments `.` and `..`.
pub open spec fn is_plain(text: Seq<char>) -> bool {
    &&& forall|i: int| 0 <= i < text.len() ==> is_plain_char(#[trigger] text[i])
    &&& text != seq!['.']
    &&& text != seq!['.', '.']
}

/// A character that stands in a path segment as it is: a printable ASCII
/// character other than `/`, `%` and some that stores advise against.
pub open spec fn is_kept(c: char) -> bool {
    &&& ' ' <= c <= '}'
    &&& c != '/' && c != '\\' && c != '{' && c != '^' && c != '}' && c != '%' && c != '`'
    &&& c != ']' && c != '"' && c != '>' && c != '[' && c != '<' && c != '#' && c != '|'
    &&& c != '*' && c != '?'
}

/// The hexadecimal digit `digit`.
pub open spec fn hex_digit(digit: int) -> char {
    seq!['0', '1', '2', '3', '4', '5', '6', '7', '8', '9', 'A', 'B', 'C', 'D', 'E', 'F'][digit]
}

/// One byte of a path segment: itself where it is kept, and else `%` and its two
/// hexadecimal digits.
pub open spec fn escaped(byte: u8) -> Seq<char> {
    if byte < 0x80 && is_kept(byte as char) {
        seq![byte as char]
    } else {
        seq!['%', hex_digit(byte as int / 16), hex_digit(byte as int % 16)]
    }
}

/// The bytes of a path segment, one after the other.
pub open spec fn percent_encoded(bytes: Seq<u8>) -> Seq<char>
    decreases bytes.len(),
{
    if bytes.len() == 0 {
        Seq::empty()
    } else {
        escaped(bytes[0]) + percent_encoded(bytes.drop_first())
    }
}

/// One of the relative segments `.` and `..`.
pub open spec fn is_relative(text: Seq<char>) -> bool {
    text == seq!['.'] || text == seq!['.', '.']
}

/// The path segment for a string: its percent-encoded bytes. The relative
/// segments have their dots encoded, so that they are not read as such.
pub open spec fn segment(text: Seq<char>) -> Seq<char> {
    if text == seq!['.'] {
        seq!['%', '2', 'E']
    } else if text == seq!['.', '.'] {
        seq!['%', '2', 'E', '%', '2', 'E']
    } else {
        percent_encoded(vstd::utf8::encode_utf8(text))
    }
}

/// The path that a string names: what stands between its `/`, segment by
/// segment, without what is empty.
pub open spec fn path_named(text: Seq<char>) -> Seq<char>
    decreases text.len(),
{
    let name = last_segment(text);
    if name.len() >= text.len() {
        segment(text)
    } else {
        let parent = path_named(text.take(text.len() - name.len() - 1));
        if name.len() == 0 {
            parent
        } else {
            longer_path(parent, segment(name))
        }
    }
}

/// A string that names the path that it spells: plain segments, none of them
/// empty, with a `/` between each two.
pub open spec fn is_plain_path(text: Seq<char>) -> bool
    decreases text.len(),
{
    let name = last_segment(text);
    &&& name.len() > 0
    &&& is_plain(name)
    &&& name.len() < text.len() ==> is_plain_path(text.take(text.len() - name.len() - 1))
}

/// The path `parent` with one more segment.
pub open spec fn longer_path(parent: Seq<char>, segment: Seq<char>) -> Seq<char> {
    if parent.len() == 0 {
        segment
    } else {
        parent + seq!['/'] + segment
    }
}

/// The path `parent` with one more segment, the one for `name`.
pub open spec fn child_path(parent: Seq<char>, name: Seq<char>) -> Seq<char> {
    longer_path(parent, segment(name))
}

/// What stands behind the last `/` of a path.
pub open spec fn last_segment(path: Seq<char>) -> Seq<char>
    decreases path.len(),
{
    if path.len() == 0 || path.last() == '/' {
        Seq::empty()
    } else {
        last_segment(path.drop_last()).push(path.last())
    }
}

/// Calls `Path::from` for a string: it is split at `/`, what is empty is dropped,
/// and the rest, encoded as `PathPart::from` does, is joined by `/`.
#[verifier::external_body]
pub(crate) fn parse_path(text: &str) -> (path: Path)
    ensures
        path_text(path) == path_named(text@),
{
    Path::from(text)
}

/// Calls `Path::child`: the segment that `PathPart::from` makes of the name
/// behind the path and a `/`, or alone where the path is empty.
#[verifier::external_body]
pub(crate) fn child(path: &Path, name: &str) -> (longer: Path)
    ensures
        path_text(longer) == child_path(path_text(*path), name@),
{
    path.child(name)
}

/// Calls `Path::filename`: nothing for the empty path, and what stands behind
/// the last `/` of any other.
#[verifier::external_body]
pub(crate) fn filename(path: &Path) -> (name: Option<String>)
    ensures
        match name {
            Some(name) => path_text(*path).len() > 0 && name@ == last_segment(path_text(*path)),
            None => path_text(*path).len() == 0,
        },
{
    path.filename().map(|name| name.to_string())
}

/// The last segment of a path that was made longer by a segment without `/` is
/// that segment.
pub proof fn lemma_last_segment(head: Seq<char>, name: Seq<char>)
    requires
        !name.contains('/'),
    ensures
        last_segment(name) == name,
        last_segment(head + seq!['/'] + name) == name,
    decreases name.len(),
{
    let whole = head + seq!['/'] + name;
    if name.len() == 0 {
        assert(whole.last() == '/');
        assert(name =~= Seq::empty());
    } else {
        let shorter = name.drop_last();
        assert(name.last() != '/') by {
            assert(name.contains(name.last()));
        }
        assert(!shorter.contains('/')) by {
            assert forall|i: int| 0 <= i < shorter.len() implies shorter[i] != '/' by {
                assert(name.contains(name[i]));
            }
        }
        lemma_last_segment(head, shorter);
        assert(whole.drop_last() =~= head + seq!['/'] + shorter);
        assert(shorter.push(name.last()) =~= name);
    }
}

/// A path segment holds no `/`.
proof fn lemma_encoded_has_no_slash(bytes: Seq<u8>)
    ensures
        !percent_encoded(bytes).contains('/'),
    decreases bytes.len(),
{
    if bytes.len() > 0 {
        let rest = percent_encoded(bytes.drop_first());
        let first = escaped(bytes[0]);
        lemma_encoded_has_no_slash(bytes.drop_first());
        let whole = percent_encoded(bytes);
        assert forall|i: int| 0 <= i < whole.len() implies whole[i] != '/' by {
            if i >= first.len() {
                assert(whole[i] == rest[i - first.len()]);
                assert(rest.contains(rest[i - first.len()]));
            }
        }
    }
}

/// A path segment holds no `/`.
pub proof fn lemma_segment_has_no_slash(text: Seq<char>)
    ensures
        !segment(text).contains('/'),
{
    lemma_encoded_has_no_slash(vstd::utf8::encode_utf8(text));
}

/// Bytes that are all kept are encoded as themselves.
proof fn lemma_kept_bytes(bytes: Seq<u8>)
    requires
        forall|i: int| 0 <= i < bytes.len() ==> #[trigger] bytes[i] < 0x80 && is_kept(bytes[i] as char),
    ensures
        percent_encoded(bytes) == Seq::new(bytes.len(), |i: int| bytes[i] as char),
    decreases bytes.len(),
{
    if bytes.len() > 0 {
        let rest = bytes.drop_first();
        assert forall|i: int| 0 <= i < rest.len() implies #[trigger] rest[i] < 0x80 && is_kept(
            rest[i] as char,
        ) by {
            assert(rest[i] == bytes[i + 1]);
        }
        lemma_kept_bytes(rest);
    }
    assert(percent_encoded(bytes) =~= Seq::new(bytes.len(), |i: int| bytes[i] as char));
}

/// A plain string is its own path segment.
pub proof fn lemma_plain_segment(text: Seq<char>)
    requires
        is_plain(text),
    ensures
        segment(text) == text,
{
    let bytes = vstd::utf8::encode_utf8(text);
    assert forall|i: int| 0 <= i < text.len() implies '\0' <= #[trigger] text[i] <= '\u{7f}' by {
        assert(is_plain_char(text[i]));
    }
    vstd::utf8::is_ascii_chars_encode_utf8(text);
    assert forall|i: int| 0 <= i < bytes.len() implies #[trigger] bytes[i] < 0x80 && is_kept(
        bytes[i] as char,
    ) && bytes[i] as char == text[i] by {
        assert(is_plain_char(text[i]));
        assert(text[i] as u8 == bytes[i]);
    }
    lemma_kept_bytes(bytes);
    assert(segment(text) =~= text);
}

/// The encoding of a byte tells the byte, and where the next one begins.
proof fn lemma_escaped(left: u8, right: u8, left_rest: Seq<char>, right_rest: Seq<char>)
    requires
        escaped(left) + left_rest == escaped(right) + right_rest,
    ensures
        left == right,
        left_rest == right_rest,
{
    let whole = escaped(left) + left_rest;
    assert(whole[0] == escaped(left)[0]);
    assert(whole[0] == escaped(right)[0]);
    assert(escaped(left).len() == escaped(right).len());
    if escaped(left).len() == 3 {
        assert(whole[1] == escaped(left)[1] && whole[1] == escaped(right)[1]);
        assert(whole[2] == escaped(left)[2] && whole[2] == escaped(right)[2]);
        assert(left as int / 16 == right as int / 16);
        assert(left as int % 16 == right as int % 16);
    }
    assert(left_rest =~= whole.skip(escaped(left).len() as int));
    assert(right_rest =~= whole.skip(escaped(right).len() as int));
}

/// Different bytes are encoded differently.
proof fn lemma_encoding_is_injective(left: Seq<u8>, right: Seq<u8>)
    requires
        percent_encoded(left) == percent_encoded(right),
    ensures
        left == right,
    decreases left.len(),
{
    if left.len() == 0 || right.len() == 0 {
        if left.len() > 0 {
            assert(percent_encoded(left).len() > 0);
        }
        if right.len() > 0 {
            assert(percent_encoded(right).len() > 0);
        }
        assert(left =~= right);
    } else {
        lemma_escaped(
            left[0],
            right[0],
            percent_encoded(left.drop_first()),
            percent_encoded(right.drop_first()),
        );
        lemma_encoding_is_injective(left.drop_first(), right.drop_first());
        assert(left =~= seq![left[0]] + left.drop_first());
        assert(right =~= seq![right[0]] + right.drop_first());
    }
}

/// The file name of a child path is the segment for the name that it was made
/// with.
pub proof fn lemma_child_filename(parent: Seq<char>, name: Seq<char>)
    ensures
        last_segment(child_path(parent, name)) == segment(name),
{
    lemma_segment_has_no_slash(name);
    lemma_last_segment(parent, segment(name));
}

/// Two names give the same child of a path only where they are the same.
pub proof fn lemma_child_is_injective(parent: Seq<char>, left: Seq<char>, right: Seq<char>)
    requires
        !is_relative(left),
        !is_relative(right),
        child_path(parent, left) == child_path(parent, right),
    ensures
        left == right,
{
    lemma_child_filename(parent, left);
    lemma_child_filename(parent, right);
    lemma_encoding_is_injective(
        vstd::utf8::encode_utf8(left),
        vstd::utf8::encode_utf8(right),
    );
    vstd::utf8::encode_utf8_decode_utf8(left);
    vstd::utf8::encode_utf8_decode_utf8(right);
}

/// What stands behind the last `/` is the end of the string, and a `/` stands
/// before it unless it is the whole string.
proof fn lemma_last_segment_is_the_end(text: Seq<char>)
    ensures
        last_segment(text).len() <= text.len(),
        last_segment(text) == text.skip(text.len() - last_segment(text).len()),
        last_segment(text).len() < text.len() ==> text[text.len() - last_segment(text).len() - 1]
            == '/',
    decreases text.len(),
{
    if text.len() > 0 && text.last() != '/' {
        let shorter = text.drop_last();
        lemma_last_segment_is_the_end(shorter);
        assert(last_segment(text) =~= text.skip(text.len() - last_segment(text).len()));
    } else {
        assert(last_segment(text) =~= text.skip(text.len() as int));
    }
}

/// A string of plain segments names the path that it spells.
pub proof fn plain_path_is_kept(text: Seq<char>)
    requires
        is_plain_path(text),
    ensures
        path_named(text) == text,
        text.len() > 0,
    decreases text.len(),
{
    let name = last_segment(text);
    lemma_last_segment_is_the_end(text);
    lemma_plain_segment(name);
    if name.len() < text.len() {
        let parent = text.take(text.len() - name.len() - 1);
        plain_path_is_kept(parent);
        assert(text =~= parent + seq!['/'] + name);
    } else {
        assert(text =~= name);
    }
}

/// It makes no difference to the path that a string names how many `/` the
/// string ends in.
pub proof fn trailing_slashes_do_not_matter(text: Seq<char>)
    ensures
        path_named(text::without_trailing_slashes(text)) == path_named(text),
    decreases text.len(),
{
    if text.len() > 0 && text.last() == '/' {
        trailing_slashes_do_not_matter(text.drop_last());
        assert(text.take(text.len() - 1) =~= text.drop_last());
    }
}

} // verus!
