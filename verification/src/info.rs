//! The diagnostic block that describes one message: its length, whether a
//! splitter will have to cut it, into how many pieces, and how it begins.

use crate::fixtures::TELEGRAM_LIMIT;
use crate::text::{decimal, decimal_string, lemma_repeated_index, repeat, repeated};
use vstd::prelude::*;

verus! {

/// Width of a separator line, in characters.
pub const SEPARATOR_WIDTH: usize = 60;

/// The longest message, in characters, that is previewed in full.
pub const PREVIEW_LENGTH: usize = 200;

/// A separator line: `SEPARATOR_WIDTH` equals signs.
pub open spec fn separator() -> Seq<char> {
    repeated(seq!['='], SEPARATOR_WIDTH as nat)
}

/// Whether a message of `length` characters is longer than one piece may be.
pub open spec fn exceeds_limit(length: nat) -> bool {
    length > TELEGRAM_LIMIT
}

/// The number of pieces estimated for a message of `length` characters:
/// `length` divided by the limit, rounded up.
pub open spec fn chunk_estimate(length: nat) -> nat {
    ((length + TELEGRAM_LIMIT - 1) / (TELEGRAM_LIMIT as int)) as nat
}

/// The preview of a message: all of it, or its first `PREVIEW_LENGTH`
/// characters and an ellipsis where it is longer than that.
pub open spec fn preview_of(message: Seq<char>) -> Seq<char> {
    if message.len() > PREVIEW_LENGTH {
        message.subrange(0, PREVIEW_LENGTH as int) + "..."@
    } else {
        message
    }
}

/// The line that reports the length.
pub open spec fn length_line(length: nat) -> Seq<char> {
    "Length: "@ + decimal(length) + " characters"@
}

/// The line that reports whether the message will be split.
pub open spec fn split_line(length: nat) -> Seq<char> {
    "Will split: "@ + if exceeds_limit(length) {
        "Yes"@
    } else {
        "No"@
    }
}

/// The line that reports the estimated number of pieces.
pub open spec fn chunks_line(length: nat) -> Seq<char> {
    "Estimated chunks: "@ + decimal(chunk_estimate(length))
}

/// The lines of the diagnostic block for `message` under the heading `name`,
/// in the order in which they are written. The line with the estimate is
/// present only for a message that exceeds the limit; the last line is
/// blank.
pub open spec fn info_lines(message: Seq<char>, name: Seq<char>) -> Seq<Seq<char>> {
    let length = message.len();
    let head = seq![separator(), name, separator(), length_line(length), split_line(length)];
    let estimate = if exceeds_limit(length) {
        seq![chunks_line(length)]
    } else {
        Seq::empty()
    };
    let tail = seq![separator(), preview_of(message), separator(), Seq::empty()];
    head + estimate + tail
}

/// A separator line is `SEPARATOR_WIDTH` characters long and holds nothing
/// but equals signs.
pub proof fn lemma_separator()
    ensures
        separator().len() == SEPARATOR_WIDTH,
        forall|place: int| 0 <= place < SEPARATOR_WIDTH ==> separator()[place] == '=',
{
    assert forall|place: int| 0 <= place < SEPARATOR_WIDTH implies separator()[place] == '=' by {
        lemma_repeated_index(seq!['='], SEPARATOR_WIDTH as nat, place);
    }
    lemma_repeated_index(seq!['='], SEPARATOR_WIDTH as nat, 0);
}

/// A block is nine lines long, or ten for a message that exceeds the
/// limit. It opens with the heading between two separator lines and closes
/// with the preview between two separator lines and a blank line; between
/// them stand the length, the verdict and, for a message that exceeds the
/// limit, the estimate.
pub proof fn lemma_info_lines_shape(message: Seq<char>, name: Seq<char>)
    ensures
        ({
            let lines = info_lines(message, name);
            let length = message.len();
            let count = lines.len() as int;
            &&& count == if exceeds_limit(length) {
                10int
            } else {
                9int
            }
            &&& lines[0] == separator()
            &&& lines[1] == name
            &&& lines[2] == separator()
            &&& lines[3] == length_line(length)
            &&& lines[4] == split_line(length)
            &&& exceeds_limit(length) ==> lines[5] == chunks_line(length)
            &&& lines[count - 4] == separator()
            &&& lines[count - 3] == preview_of(message)
            &&& lines[count - 2] == separator()
            &&& lines[count - 1] == Seq::<char>::empty()
        }),
{
}

/// Says whether a message of `length` characters is longer than the limit.
pub fn will_split(length: usize) -> (split: bool)
    ensures
        split == exceeds_limit(length as nat),
{
    length > TELEGRAM_LIMIT
}

/// Estimates the number of pieces for a message of `length` characters.
pub fn estimated_chunks(length: usize) -> (chunks: usize)
    ensures
        chunks == chunk_estimate(length as nat),
{
    if length == 0 {
        0
    } else {
        (length - 1) / TELEGRAM_LIMIT + 1
    }
}

/// The estimate is the least number of pieces of at most the limit each
/// that together hold `length` characters.
pub proof fn lemma_chunk_estimate_is_ceiling(length: nat)
    ensures
        chunk_estimate(length) * TELEGRAM_LIMIT >= length,
        length > 0 ==> (chunk_estimate(length) - 1) * TELEGRAM_LIMIT < length,
        length == 0 ==> chunk_estimate(length) == 0,
{
}

/// Returns a separator line.
pub fn separator_line() -> (line: String)
    ensures
        line@ == separator(),
{
    proof {
        reveal_strlit("=");
    }
    assert("="@ =~= seq!['=']);
    repeat("=", SEPARATOR_WIDTH)
}

/// Returns the preview of `message`.
pub fn preview(message: &str) -> (out: String)
    ensures
        out@ == preview_of(message@),
{
    if message.unicode_len() > PREVIEW_LENGTH {
        let mut out = message.substring_char(0, PREVIEW_LENGTH).to_owned();
        out.append("...");
        out
    } else {
        message.to_owned()
    }
}

/// Returns the diagnostic block for `message` under the heading `name`,
/// line by line.
pub fn message_info(message: &str, name: &str) -> (lines: Vec<String>)
    ensures
        lines.deep_view() == info_lines(message@, name@),
{
    let length = message.unicode_len();
    let split = will_split(length);

    let mut length_text = "Length: ".to_owned();
    length_text.append(decimal_string(length).as_str());
    length_text.append(" characters");

    let mut split_text = "Will split: ".to_owned();
    split_text.append(if split { "Yes" } else { "No" });

    let mut lines: Vec<String> = Vec::new();
    lines.push(separator_line());
    lines.push(name.to_owned());
    lines.push(separator_line());
    lines.push(length_text);
    lines.push(split_text);
    if split {
        let mut chunks_text = "Estimated chunks: ".to_owned();
        chunks_text.append(decimal_string(estimated_chunks(length)).as_str());
        lines.push(chunks_text);
    }
    lines.push(separator_line());
    lines.push(preview(message));
    lines.push(separator_line());
    lines.push(String::new());
    assert(lines.deep_view() =~= info_lines(message@, name@));
    lines
}

} // verus!
