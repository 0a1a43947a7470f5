use vstd::prelude::*;
use vstd::string::StringSliceAdditionalSpecFns;
use vstd::utf8::*;

verus! {

/// The Unicode byte order mark. Notepad and Windows PowerShell 5.1
/// (`Set-Content -Encoding UTF8`) write it at the start of UTF-8 files, and
/// JSON parsers reject it.
pub const BYTE_ORDER_MARK: char = '\u{feff}';

/// `s` with every leading occurrence of `c` removed.
pub open spec fn trim_leading(s: Seq<char>, c: char) -> Seq<char>
    decreases s.len(),
{
    if s.len() > 0 && s[0] == c {
        trim_leading(s.drop_first(), c)
    } else {
        s
    }
}

/// Whether `s` ends with `suffix`.
pub open spec fn ends_with(s: Seq<char>, suffix: Seq<char>) -> bool {
    suffix.len() <= s.len() && s.subrange(s.len() - suffix.len(), s.len() as int) == suffix
}

/// The final component of a path, as text, when the path has one: the file
/// name of a file, the directory name of a directory, and nothing for a path
/// that ends in `..` or names a root. Path separators are those of the
/// platform that the crate is built for.
pub uninterp spec fn path_file_name(path: Seq<char>) -> Option<Seq<char>>;

/// The text of `path` after its last `/`; all of it where it has none.
pub open spec fn after_last_slash(path: Seq<char>) -> Seq<char>
    decreases path.len(),
{
    if path.len() == 0 {
        path
    } else if path.last() == '/' {
        Seq::empty()
    } else {
        after_last_slash(path.drop_last()).push(path.last())
    }
}

/// Whether `name` is a plain path component: not empty, not `.` or `..`,
/// and without a separator of any platform.
pub open spec fn is_plain_component(name: Seq<char>) -> bool {
    &&& name.len() > 0
    &&& name != seq!['.']
    &&& name != seq!['.', '.']
    &&& !name.contains('/')
    &&& !name.contains('\\')
}

/// The final component of a path that has a `/`, no `\`, and a plain
/// component after its last `/`: that component. Other paths get nothing
/// here (which says nothing of their file name).
pub open spec fn plain_final_component(path: Seq<char>) -> Option<Seq<char>> {
    if path.contains('/') && !path.contains('\\') && is_plain_component(after_last_slash(path)) {
        Some(after_last_slash(path))
    } else {
        None
    }
}

/// The text after the last `/` of a directory, a `/` and a name without
/// `/` is that name.
proof fn lemma_after_last_slash(dir: Seq<char>, name: Seq<char>)
    requires
        !name.contains('/'),
    ensures
        after_last_slash(dir + seq!['/'] + name) == name,
    decreases name.len(),
{
    let path = dir + seq!['/'] + name;
    if name.len() == 0 {
        assert(path.last() == '/');
        assert(name =~= Seq::<char>::empty());
    } else {
        let init = name.drop_last();
        assert(!init.contains('/')) by {
            if init.contains('/') {
                let i = choose|i: int| 0 <= i < init.len() && init[i] == '/';
                assert(name[i] == '/');
            }
        }
        assert(name[name.len() - 1] != '/');
        assert(path.drop_last() =~= dir + seq!['/'] + init);
        lemma_after_last_slash(dir, init);
        assert(init.push(name.last()) =~= name);
    }
}

/// A path made of a directory without `\` (empty for a path from the
/// root), a `/`, and a plain name has that name as its final component,
/// whether the path is absolute or relative.
pub proof fn law_final_component_of_path(dir: Seq<char>, name: Seq<char>)
    requires
        !dir.contains('\\'),
        is_plain_component(name),
    ensures
        plain_final_component(dir + seq!['/'] + name) == Some(name),
{
    let path = dir + seq!['/'] + name;
    lemma_after_last_slash(dir, name);
    assert(path[dir.len() as int] == '/');
    assert(!path.contains('\\')) by {
        if path.contains('\\') {
            let i = choose|i: int| 0 <= i < path.len() && path[i] == '\\';
            if i < dir.len() {
                assert(dir[i] == '\\');
            } else if i > dir.len() {
                assert(name[i - dir.len() - 1] == '\\');
            }
        }
    }
}

/// Asks `std::path::Path::file_name` for the final component of `path`.
///
/// Trusted: the result is taken to be `path_file_name` of the path. The text
/// of a component of a `&str` path is itself valid UTF-8, so the conversion
/// back to a string never drops a name that `file_name` found. As the
/// documentation of `file_name` says, the final component of a path is its
/// file name: where the text after the last `/` is a plain name, and no `\`
/// (a separator, or the start of a prefix, on Windows) occurs in the path,
/// that text is the result.
#[verifier::external_body]
fn file_name_of(path: &str) -> (name: Option<String>)
    ensures
        path_file_name(path@) == (match name {
            Some(n) => Some(n@),
            None => None,
        }),
        plain_final_component(path@) is Some ==> name is Some && name->0@
            == plain_final_component(path@)->0,
{
    match std::path::Path::new(path).file_name() {
        Some(n) => match n.to_str() {
            Some(s) => Some(s.to_string()),
            None => None,
        },
        None => None,
    }
}

/// The characters of `s`, in order.
fn chars_of(s: &str) -> (v: Vec<char>)
    ensures
        v@ == s@,
{
    let mut v: Vec<char> = Vec::new();
    for c in it: s.chars()
        invariant
            v@ == it.seq().take(it.index() as int),
            it.seq() == s@,
    {
        v.push(c);
    }
    v
}

/// Whether the characters in `s` end with those in `suffix`.
fn chars_end_with(s: &Vec<char>, suffix: &Vec<char>) -> (res: bool)
    ensures
        res == ends_with(s@, suffix@),
{
    if suffix.len() > s.len() {
        return false;
    }
    let offset: usize = s.len() - suffix.len();
    let mut i: usize = 0;
    while i < suffix.len()
        invariant
            offset + suffix.len() == s.len(),
            i <= suffix.len(),
            forall|j: int| 0 <= j < i ==> s@[offset + j] == suffix@[j],
        decreases suffix.len() - i,
    {
        if s[offset + i] != suffix[i] {
            assert(s@.subrange(offset as int, s.len() as int)[i as int] != suffix@[i as int]);
            return false;
        }
        i = i + 1;
    }
    assert(s@.subrange(offset as int, s.len() as int) =~= suffix@);
    true
}

/// Whether a file name has the extension `extension`: the name ends with
/// it, and it is set off by a dot, either its own first character or the
/// character of the name just before it. `"zpack.json"` has the extensions
/// `"json"` and `".json"`; `"notjson"` has neither.
pub open spec fn name_has_extension(name: Seq<char>, extension: Seq<char>) -> bool {
    &&& ends_with(name, extension)
    &&& {
        ||| (extension.len() > 0 && extension[0] == '.')
        ||| (name.len() > extension.len() && name[name.len() - extension.len() - 1] == '.')
    }
}

/// A name that ends with an extension that begins with a dot has that
/// extension, whatever comes before it, dots included.
pub proof fn law_dotted_extension(prefix: Seq<char>, extension: Seq<char>)
    requires
        extension.len() > 0,
        extension[0] == '.',
    ensures
        name_has_extension(prefix + extension, extension),
{
    let name = prefix + extension;
    assert(name.subrange(name.len() - extension.len(), name.len() as int) =~= extension);
}

/// A name that ends with a dot and then an extension has that extension,
/// whatever comes before the dot, dots included.
pub proof fn law_extension_after_dot(prefix: Seq<char>, extension: Seq<char>)
    ensures
        name_has_extension(prefix + seq!['.'] + extension, extension),
{
    let name = prefix + seq!['.'] + extension;
    assert(name.subrange(name.len() - extension.len(), name.len() as int) =~= extension);
    assert(name[name.len() - extension.len() - 1] == '.');
}

/// A name has an extension exactly when it is some text followed by the
/// extension, and the extension begins with a dot or the text ends with
/// one.
pub proof fn law_extension_characterized(name: Seq<char>, extension: Seq<char>)
    ensures
        name_has_extension(name, extension) <==> exists|prefix: Seq<char>|
            #![trigger prefix + extension]
            name == prefix + extension && ((extension.len() > 0 && extension[0] == '.') || (
            prefix.len() > 0 && prefix.last() == '.')),
{
    if name_has_extension(name, extension) {
        let prefix = name.subrange(0, name.len() - extension.len());
        assert(name =~= prefix + extension);
    }
    if exists|prefix: Seq<char>|
        #![trigger prefix + extension]
        name == prefix + extension && ((extension.len() > 0 && extension[0] == '.') || (
        prefix.len() > 0 && prefix.last() == '.')) {
        let prefix = choose|prefix: Seq<char>|
            #![trigger prefix + extension]
            name == prefix + extension && ((extension.len() > 0 && extension[0] == '.') || (
            prefix.len() > 0 && prefix.last() == '.'));
        assert(name.subrange(name.len() - extension.len(), name.len() as int) =~= extension);
        if !(extension.len() > 0 && extension[0] == '.') {
            assert(name[name.len() - extension.len() - 1] == prefix.last());
        }
    }
}

/// Whether a file name, as `file_name_of` hands it back, has the extension
/// `extension`. A path without a file name has no extension.
pub fn file_name_has_extension(file_name: Option<&str>, extension: &str) -> (res: bool)
    ensures
        res == (match file_name {
            Some(name) => name_has_extension(name@, extension@),
            None => false,
        }),
{
    match file_name {
        Some(name) => {
            let name_chars = chars_of(name);
            let extension_chars = chars_of(extension);
            if !chars_end_with(&name_chars, &extension_chars) {
                return false;
            }
            if extension_chars.len() > 0 && extension_chars[0] == '.' {
                return true;
            }
            name_chars.len() > extension_chars.len()
                && name_chars[name_chars.len() - extension_chars.len() - 1] == '.'
        },
        None => false,
    }
}

/// Returns whether the path has the given extension: whether its file name
/// ends with `extension`, set off by a dot.
pub fn has_extension(path: &str, extension: &str) -> (res: bool)
    ensures
        res == (match path_file_name(path@) {
            Some(name) => name_has_extension(name, extension@),
            None => false,
        }),
        plain_final_component(path@) matches Some(name) ==> res == name_has_extension(
            name,
            extension@,
        ),
{
    let name = file_name_of(path);
    match name {
        Some(n) => file_name_has_extension(Some(n.as_str()), extension),
        None => file_name_has_extension(None, extension),
    }
}

/// The UTF-8 encoding of the byte order mark.
proof fn lemma_byte_order_mark_encoding()
    ensures
        encode_scalar(BYTE_ORDER_MARK as u32) == seq![0xEFu8, 0xBBu8, 0xBFu8],
        codepoint_width_3(0xEFu8, 0xBBu8, 0xBFu8) == BYTE_ORDER_MARK as u32,
{
    let s: u32 = 0xFEFF;
    assert(BYTE_ORDER_MARK as u32 == s);
    assert(has_width_3_encoding(s));
    assert(leading_byte_width_3(s) == 0xEFu8) by (bit_vector)
        requires
            s == 0xFEFFu32,
    ;
    assert(second_last_continuation_byte(s) == 0xBBu8) by (bit_vector)
        requires
            s == 0xFEFFu32,
    ;
    assert(last_continuation_byte(s) == 0xBFu8) by (bit_vector)
        requires
            s == 0xFEFFu32,
    ;
    assert(codepoint_width_3(0xEFu8, 0xBBu8, 0xBFu8) == 0xFEFFu32) by (bit_vector);
    assert(encode_scalar(s) =~= seq![0xEFu8, 0xBBu8, 0xBFu8]);
}

/// The UTF-8 encoding of `chars` starts with the three bytes of a byte order
/// mark exactly when `chars` starts with one; the rest of the encoding then
/// encodes the rest of `chars`.
proof fn lemma_leading_byte_order_mark(chars: Seq<char>)
    ensures
        ({
            let bytes = encode_utf8(chars);
            (chars.len() > 0 && chars[0] == BYTE_ORDER_MARK) <==> (bytes.len() >= 3 && bytes[0]
                == 0xEFu8 && bytes[1] == 0xBBu8 && bytes[2] == 0xBFu8)
        }),
        chars.len() > 0 && chars[0] == BYTE_ORDER_MARK ==> {
            &&& is_char_boundary(encode_utf8(chars), 3)
            &&& encode_utf8(chars).subrange(3, encode_utf8(chars).len() as int) == encode_utf8(
                chars.drop_first(),
            )
        },
{
    lemma_byte_order_mark_encoding();
    let bytes = encode_utf8(chars);
    if chars.len() > 0 {
        let head = encode_scalar(chars[0] as u32);
        assert(bytes == head + encode_utf8(chars.drop_first()));
        encode_utf8_first_scalar(chars);
        encode_utf8_valid_utf8(chars);
        if chars[0] == BYTE_ORDER_MARK {
            assert(bytes.subrange(3, bytes.len() as int) =~= encode_utf8(chars.drop_first()));
            assert(length_of_first_scalar(bytes) == 3);
            assert(is_char_boundary(pop_first_scalar(bytes), 0));
            assert(is_char_boundary(bytes, 3));
        } else if bytes.len() >= 3 && bytes[0] == 0xEFu8 && bytes[1] == 0xBBu8 && bytes[2]
            == 0xBFu8 {
            assert(is_leading_byte_width_3(bytes[0]));
            assert(decode_first_scalar(bytes) == codepoint_width_3(bytes[0], bytes[1], bytes[2]));
            assert(chars[0] as u32 == BYTE_ORDER_MARK as u32);
            char_u32_cast(chars[0], BYTE_ORDER_MARK as u32);
            char_u32_cast(BYTE_ORDER_MARK, BYTE_ORDER_MARK as u32);
        }
    } else {
        assert(bytes.len() == 0);
    }
}

/// Stripping byte order marks a second time changes nothing: what is left
/// does not start with one.
pub proof fn law_strip_is_idempotent(s: Seq<char>)
    ensures
        trim_leading(trim_leading(s, BYTE_ORDER_MARK), BYTE_ORDER_MARK) == trim_leading(
            s,
            BYTE_ORDER_MARK,
        ),
        trim_leading(s, BYTE_ORDER_MARK).len() == 0 || trim_leading(s, BYTE_ORDER_MARK)[0]
            != BYTE_ORDER_MARK,
    decreases s.len(),
{
    if s.len() > 0 && s[0] == BYTE_ORDER_MARK {
        law_strip_is_idempotent(s.drop_first());
    }
}

/// Stripping removes only byte order marks, and only from the start: what
/// is left is a suffix of the text, and everything before it is a byte
/// order mark.
pub proof fn law_strip_removes_only_leading_marks(s: Seq<char>)
    ensures
        ({
            let t = trim_leading(s, BYTE_ORDER_MARK);
            &&& t.len() <= s.len()
            &&& t == s.subrange(s.len() - t.len(), s.len() as int)
            &&& forall|i: int| 0 <= i < s.len() - t.len() ==> s[i] == BYTE_ORDER_MARK
        }),
    decreases s.len(),
{
    if s.len() > 0 && s[0] == BYTE_ORDER_MARK {
        let rest = s.drop_first();
        law_strip_removes_only_leading_marks(rest);
        let t = trim_leading(rest, BYTE_ORDER_MARK);
        assert(t == trim_leading(s, BYTE_ORDER_MARK));
        assert(rest.subrange(rest.len() - t.len(), rest.len() as int) =~= s.subrange(
            s.len() - t.len(),
            s.len() as int,
        ));
        assert forall|i: int| 0 <= i < s.len() - t.len() implies s[i] == BYTE_ORDER_MARK by {
            if i > 0 {
                assert(s[i] == rest[i - 1]);
            }
        }
    } else {
        assert(s.subrange(0, s.len() as int) =~= s);
    }
}

/// The text of a JSON file with every leading byte order mark removed, as
/// the parser expects it.
pub fn strip_byte_order_marks(content: &str) -> (res: &str)
    ensures
        res@ == trim_leading(content@, BYTE_ORDER_MARK),
{
    let mut rest = content;
    loop
        invariant
            trim_leading(rest@, BYTE_ORDER_MARK) == trim_leading(content@, BYTE_ORDER_MARK),
        decreases rest@.len(),
    {
        let bytes = rest.as_bytes();
        proof {
            lemma_leading_byte_order_mark(rest@);
        }
        if bytes.len() >= 3 && bytes[0] == 0xEF && bytes[1] == 0xBB && bytes[2] == 0xBF {
            let (_, tail) = rest.split_at(3);
            proof {
                let tail_chars = rest@.drop_first();
                assert(tail.spec_bytes() == encode_utf8(tail_chars));
                encode_utf8_decode_utf8(tail@);
                encode_utf8_decode_utf8(tail_chars);
                assert(tail@ == tail_chars);
            }
            rest = tail;
        } else {
            return rest;
        }
    }
}

} // verus!
