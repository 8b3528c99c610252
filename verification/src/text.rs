//! Text handling shared by the builders and the read loop: the short user
//! name of a prefix, line splitting, and the action marker.

use vstd::prelude::*;
use vstd::string::*;
use vstd::utf8::*;

verus! {

/// Longest user name, in bytes, that a prefix carries.
pub const SHORT_USER_MAX: usize = 6;

/// Number of bytes of `nickname` that make up its short user name.
pub open spec fn short_user_len(nickname: Seq<char>) -> int {
    if encode_utf8(nickname).len() < SHORT_USER_MAX {
        encode_utf8(nickname).len() as int
    } else {
        SHORT_USER_MAX as int
    }
}

/// Whether `nickname` can be cut after [`short_user_len`] bytes without
/// splitting a character.
pub open spec fn has_short_user(nickname: Seq<char>) -> bool {
    is_char_boundary(encode_utf8(nickname), short_user_len(nickname))
}

/// The short user name of `nickname`: the first [`short_user_len`] bytes of
/// its encoding, read back as text.
pub open spec fn short_user(nickname: Seq<char>) -> Seq<char> {
    decode_utf8(encode_utf8(nickname).take(short_user_len(nickname)))
}

/// Tells whether a short user name can be derived from `nickname`.
pub fn can_shorten(nickname: &str) -> (ok: bool)
    ensures
        ok == has_short_user(nickname@),
{
    let len: usize = nickname.as_bytes().len();
    let cut: usize = if len < SHORT_USER_MAX {
        len
    } else {
        SHORT_USER_MAX
    };
    nickname.is_char_boundary(cut)
}

/// Derives the short user name: the nickname cut after six bytes, or the
/// whole nickname if it is shorter.
pub fn shorten(nickname: &str) -> (user: String)
    requires
        has_short_user(nickname@),
    ensures
        user@ == short_user(nickname@),
        encode_utf8(user@) == encode_utf8(nickname@).take(short_user_len(nickname@)),
{
    broadcast use group_utf8_lib;

    let len: usize = nickname.as_bytes().len();
    let cut: usize = if len < SHORT_USER_MAX {
        len
    } else {
        SHORT_USER_MAX
    };
    let (head, _) = nickname.split_at(cut);
    let user = head.to_owned();
    proof {
        assert(encode_utf8(user@) =~= encode_utf8(nickname@).take(cut as int));
    }
    user
}

/// The short user name is a prefix of the nickname, both as bytes and as
/// text, and is as long as the nickname allows up to six bytes.
pub proof fn lemma_short_user_is_prefix(nickname: Seq<char>)
    requires
        has_short_user(nickname),
    ensures
        encode_utf8(short_user(nickname)) == encode_utf8(nickname).take(short_user_len(nickname)),
        encode_utf8(short_user(nickname)).len() == short_user_len(nickname),
        short_user(nickname).len() <= nickname.len(),
        short_user(nickname) == nickname.take(short_user(nickname).len() as int),
{
    broadcast use group_utf8_lib;

    let bytes = encode_utf8(nickname);
    let cut = short_user_len(nickname);
    let head = bytes.subrange(0, cut);
    let tail = bytes.subrange(cut, bytes.len() as int);
    assert(head =~= bytes.take(cut));
    assert(valid_utf8(bytes));
    assert(valid_utf8(head));
    assert(decode_utf8(bytes) =~= decode_utf8(head) + decode_utf8(tail));
    assert(decode_utf8(bytes) == nickname);
    assert(nickname.take(decode_utf8(head).len() as int) =~= decode_utf8(head));
}

/// For a nickname of plain ASCII the short user name is its first six
/// characters, or all of it if it has fewer.
pub proof fn lemma_short_user_ascii(nickname: Seq<char>)
    requires
        is_ascii_chars(nickname),
    ensures
        has_short_user(nickname),
        short_user(nickname) == nickname.take(
            if nickname.len() < SHORT_USER_MAX {
                nickname.len() as int
            } else {
                SHORT_USER_MAX as int
            },
        ),
{
    broadcast use group_utf8_lib;

    let bytes = encode_utf8(nickname);
    let cut = short_user_len(nickname);
    assert(bytes.len() == nickname.len());
    assert(valid_utf8(bytes));
    if cut < bytes.len() {
        assert(nickname[cut] as u8 == bytes[cut]);
        let b = bytes[cut];
        assert(b < 128);
        assert(!is_continuation_byte(b)) by (bit_vector)
            requires
                b < 128,
        ;
        assert(is_char_boundary(bytes, cut));
    } else {
        assert(is_char_boundary(bytes, bytes.len() as int));
    }
    lemma_short_user_is_prefix(nickname);
    let user = short_user(nickname);
    assert(is_ascii_chars(user)) by {
        assert(user =~= nickname.take(user.len() as int));
    }
    assert(encode_utf8(user).len() == user.len());
}

/// The character that separates the lines of a text.
pub const LINE_BREAK: char = '\n';

/// The lines of `text`: the pieces between its line breaks, in order. A
/// text without a line break is its own single line, the empty text
/// included, and a text that ends in a line break ends in an empty line.
pub open spec fn lines(text: Seq<char>) -> Seq<Seq<char>>
    decreases text.len(),
{
    if text.len() == 0 {
        seq![Seq::<char>::empty()]
    } else {
        let before = lines(text.drop_last());
        if text.last() == LINE_BREAK {
            before.push(Seq::<char>::empty())
        } else {
            before.drop_last().push(before.last().push(text.last()))
        }
    }
}

/// Number of line breaks in `text`.
pub open spec fn count_breaks(text: Seq<char>) -> nat
    decreases text.len(),
{
    if text.len() == 0 {
        0
    } else if text.last() == LINE_BREAK {
        count_breaks(text.drop_last()) + 1
    } else {
        count_breaks(text.drop_last())
    }
}

/// The given lines put together again, with one line break between each two
/// neighbours.
pub open spec fn join_lines(pieces: Seq<Seq<char>>) -> Seq<char>
    decreases pieces.len(),
{
    if pieces.len() == 0 {
        Seq::<char>::empty()
    } else if pieces.len() == 1 {
        pieces[0]
    } else {
        join_lines(pieces.drop_last()).push(LINE_BREAK) + pieces.last()
    }
}

/// The views of a sequence of strings.
pub open spec fn texts(strings: Seq<String>) -> Seq<Seq<char>> {
    strings.map_values(|s: String| s@)
}

/// Appends one character to a string, by `String::push` of the standard
/// library. Trusted: the string afterwards is the string before followed by
/// `c`.
#[verifier::external_body]
fn push_char(s: &mut String, c: char)
    ensures
        final(s)@ == old(s)@.push(c),
{
    s.push(c);
}

/// Splits `text` at its line breaks.
pub fn split_lines(text: &str) -> (out: Vec<String>)
    ensures
        texts(out@) == lines(text@),
{
    let mut out: Vec<String> = Vec::new();
    let mut current = String::new();
    for c in it: text.chars()
        invariant
            it.seq() == text@,
            texts(out@).push(current@) == lines(text@.take(it.index())),
    {
        proof {
            let done = text@.take(it.index() + 1);
            assert(done.drop_last() =~= text@.take(it.index()));
            assert(done.last() == c);
        }
        if c == LINE_BREAK {
            let ghost before = texts(out@).push(current@);
            out.push(current);
            current = String::new();
            assert(texts(out@) =~= before);
        } else {
            let ghost before = texts(out@).push(current@);
            push_char(&mut current, c);
            assert(texts(out@).push(current@) =~= before.drop_last().push(before.last().push(c)));
        }
    }
    proof {
        assert(text@.take(text@.len() as int) =~= text@);
    }
    let ghost before = texts(out@).push(current@);
    out.push(current);
    assert(texts(out@) =~= before);
    out
}

/// A text has one line more than it has line breaks.
pub proof fn lemma_lines_count(text: Seq<char>)
    ensures
        lines(text).len() == count_breaks(text) + 1,
    decreases text.len(),
{
    if text.len() > 0 {
        lemma_lines_count(text.drop_last());
    }
}

/// No line holds a line break.
pub proof fn lemma_lines_unbroken(text: Seq<char>)
    ensures
        unbroken(lines(text)),
    decreases text.len(),
{
    if text.len() > 0 {
        lemma_lines_count(text.drop_last());
        lemma_lines_unbroken(text.drop_last());
    }
}

/// Joining the lines of a text gives the text back.
pub proof fn lemma_lines_rejoin(text: Seq<char>)
    ensures
        join_lines(lines(text)) == text,
    decreases text.len(),
{
    if text.len() == 0 {
        assert(join_lines(lines(text)) =~= text);
    } else {
        let shorter = text.drop_last();
        let before = lines(shorter);
        let c = text.last();
        lemma_lines_count(shorter);
        lemma_lines_rejoin(shorter);
        assert(text =~= shorter.push(c));
        if c == LINE_BREAK {
            let all = before.push(Seq::<char>::empty());
            assert(all.drop_last() =~= before);
            assert(join_lines(all) =~= join_lines(before).push(LINE_BREAK));
        } else if before.len() == 1 {
            let all = before.drop_last().push(before.last().push(c));
            assert(all[0] =~= before[0].push(c));
            assert(join_lines(all) =~= join_lines(before).push(c));
        } else {
            let all = before.drop_last().push(before.last().push(c));
            assert(all.drop_last() =~= before.drop_last());
            assert(join_lines(all) =~= (join_lines(before.drop_last()).push(LINE_BREAK)
                + before.last()).push(c));
        }
    }
}

/// Whether none of `pieces` holds a line break.
pub open spec fn unbroken(pieces: Seq<Seq<char>>) -> bool {
    forall|i: int, j: int|
        0 <= i < pieces.len() && 0 <= j < pieces[i].len() ==> pieces[i][j] != LINE_BREAK
}

/// The lines of a text are the only way to cut it at line breaks: whatever
/// pieces without a line break join to `text`, they are its lines.
pub proof fn lemma_lines_unique(text: Seq<char>, pieces: Seq<Seq<char>>)
    requires
        pieces.len() > 0,
        unbroken(pieces),
        join_lines(pieces) == text,
    ensures
        pieces == lines(text),
    decreases text.len(),
{
    let front = pieces.drop_last();
    let tail = pieces.last();
    if pieces.len() > 1 {
        assert(join_lines(pieces) == join_lines(front).push(LINE_BREAK) + tail);
    }
    if text.len() == 0 {
        assert(pieces.len() == 1);
        assert(pieces[0] =~= Seq::<char>::empty());
        assert(pieces =~= lines(text));
    } else if tail.len() == 0 {
        assert(pieces.len() > 1);
        assert(text =~= join_lines(front).push(LINE_BREAK));
        assert(text.drop_last() =~= join_lines(front));
        assert(unbroken(front)) by {
            assert forall|i: int, j: int|
                0 <= i < front.len() && 0 <= j < front[i].len() implies front[i][j]
                != LINE_BREAK by {
                assert(front[i] == pieces[i]);
            }
        }
        lemma_lines_unique(text.drop_last(), front);
        assert(tail =~= Seq::<char>::empty());
        assert(pieces =~= front.push(tail));
    } else {
        let c = tail.last();
        assert(c == pieces[pieces.len() - 1][tail.len() - 1]);
        assert(text.last() == c);
        let shorter = front.push(tail.drop_last());
        assert(shorter.drop_last() =~= front);
        assert(join_lines(shorter) =~= text.drop_last());
        assert(unbroken(shorter)) by {
            assert forall|i: int, j: int|
                0 <= i < shorter.len() && 0 <= j < shorter[i].len() implies shorter[i][j]
                != LINE_BREAK by {
                if i < front.len() {
                    assert(shorter[i] == pieces[i]);
                } else {
                    assert(shorter[i][j] == pieces[i][j]);
                }
            }
        }
        lemma_lines_unique(text.drop_last(), shorter);
        assert(tail =~= tail.drop_last().push(c));
        assert(pieces =~= shorter.drop_last().push(shorter.last().push(c)));
    }
}

/// Number of characters in the action marker.
pub const ACTION_MARKER_LEN: usize = 8;

/// The marker that opens the text of an action: the control character
/// U+0001 followed by `ACTION` and one space.
pub open spec fn action_marker() -> Seq<char> {
    seq!['\u{1}', 'A', 'C', 'T', 'I', 'O', 'N', ' ']
}

/// Whether `text` begins with the action marker.
pub open spec fn has_action_marker(text: Seq<char>) -> bool {
    text.len() >= ACTION_MARKER_LEN && text.take(ACTION_MARKER_LEN as int) == action_marker()
}

/// Takes the action marker off the front of `text`. Gives what follows the
/// marker, or `None` if `text` does not begin with it.
pub fn strip_action_marker(text: &str) -> (rest: Option<String>)
    ensures
        has_action_marker(text@) ==> rest is Some && rest->0@ == text@.skip(
            ACTION_MARKER_LEN as int,
        ),
        !has_action_marker(text@) ==> rest is None,
{
    let len: usize = text.unicode_len();
    if len < ACTION_MARKER_LEN {
        return None;
    }
    let marked = text.get_char(0) == '\u{1}' && text.get_char(1) == 'A' && text.get_char(2) == 'C'
        && text.get_char(3) == 'T' && text.get_char(4) == 'I' && text.get_char(5) == 'O'
        && text.get_char(6) == 'N' && text.get_char(7) == ' ';
    if marked {
        proof {
            assert(text@.take(ACTION_MARKER_LEN as int) =~= action_marker());
            assert(text@.subrange(ACTION_MARKER_LEN as int, len as int) =~= text@.skip(
                ACTION_MARKER_LEN as int,
            ));
        }
        Some(text.substring_char(ACTION_MARKER_LEN, len).to_owned())
    } else {
        proof {
            let head = text@.take(ACTION_MARKER_LEN as int);
            assert(forall|i: int| 0 <= i < 8 ==> head[i] == text@[i]);
            if head == action_marker() {
                assert(head[0] == '\u{1}' && head[1] == 'A' && head[2] == 'C' && head[3] == 'T'
                    && head[4] == 'I' && head[5] == 'O' && head[6] == 'N' && head[7] == ' ');
            }
        }
        None
    }
}

} // verus!
