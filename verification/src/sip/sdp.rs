//! Reading session descriptions: the address and the port at which a caller wants its audio.
use crate::text::{
    chars_of, contents, decimal, decimal_reads_back, format_socket, is_digit, is_white_space,
    lemma_decimal_digits, lemma_first_line, lemma_first_word, lemma_trimmed_alone, lines, lines_of,
    parse_u16, slice_of, socket_text, starts_with, text_of, trim, trimmed, u16_of, words, words_of,
};
use vstd::prelude::*;

verus! {

/// The text that a body holds, invalid UTF-8 replaced.
pub uninterp spec fn utf8_lossy(bytes: Seq<u8>) -> Seq<char>;

/// `String::from_utf8_lossy`: the text depends on the bytes alone, and valid UTF-8 is decoded as
/// it stands. How many replacement characters stand for invalid bytes is not stated.
#[verifier::external_body]
pub(crate) fn decode_lossy(bytes: &[u8]) -> (text: String)
    ensures
        text@ == utf8_lossy(bytes@),
        vstd::utf8::valid_utf8(bytes@) ==> text@ == vstd::utf8::decode_utf8(bytes@),
{
    String::from_utf8_lossy(bytes).into_owned()
}

/// The line gives the connection address.
pub open spec fn is_connection_line(line: Seq<char>) -> bool {
    "c=IN IP4 "@.is_prefix_of(line)
}

/// The line describes an audio stream.
pub open spec fn is_audio_line(line: Seq<char>) -> bool {
    "m=audio "@.is_prefix_of(line)
}

/// The address on a connection line.
pub open spec fn connection_address(line: Seq<char>) -> Seq<char> {
    trimmed(line.skip("c=IN IP4 "@.len() as int))
}

/// The second word of a line: where an audio line has its port.
pub open spec fn second_word(line: Seq<char>) -> Option<Seq<char>> {
    if words_of(line).len() > 1 {
        Some(words_of(line)[1])
    } else {
        None
    }
}

/// The port on an audio line: zero where the second word is no port.
pub open spec fn port_or_zero(word: Seq<char>) -> u16 {
    match u16_of(word) {
        Some(port) => port,
        None => 0,
    }
}

/// What has been read of a description: the address and the port.
pub struct Endpoint {
    pub ip: Seq<char>,
    pub port: u16,
}

/// What one more line makes of it.
pub open spec fn after_line(seen: Endpoint, line: Seq<char>) -> Endpoint {
    if is_connection_line(line) {
        Endpoint { ip: connection_address(line), ..seen }
    } else if is_audio_line(line) && second_word(line) is Some {
        Endpoint { port: port_or_zero(second_word(line)->0), ..seen }
    } else {
        seen
    }
}

/// What some more lines make of it.
pub open spec fn after_lines(seen: Endpoint, lines: Seq<Seq<char>>) -> Endpoint
    decreases lines.len(),
{
    if lines.len() == 0 {
        seen
    } else {
        after_line(after_lines(seen, lines.drop_last()), lines.last())
    }
}

/// What is read of a whole description.
pub open spec fn endpoint_of(text: Seq<char>) -> Endpoint {
    after_lines(Endpoint { ip: Seq::empty(), port: 0 }, lines_of(text))
}

/// Where the caller wants its audio: the last address and the last port of the description, if it
/// has an address and a port other than zero.
pub open spec fn rtp_target_of(text: Seq<char>) -> Option<Seq<char>> {
    let found = endpoint_of(text);
    if found.ip.len() > 0 && found.port > 0 {
        Some(socket_text(found.ip, found.port as nat))
    } else {
        None
    }
}

/// The RTP target that a session description gives.
pub fn rtp_target(text: &str) -> (r: Option<String>)
    ensures
        match r {
            Some(target) => rtp_target_of(text@) == Some(target@),
            None => rtp_target_of(text@) is None,
        },
{
    let all = lines(&chars_of(text));
    let ghost start = Endpoint { ip: Seq::empty(), port: 0 };
    let mut ip: Vec<char> = Vec::new();
    let mut port: u16 = 0;
    let mut i: usize = 0;
    assert(contents(all@).take(0) == Seq::<Seq<char>>::empty());
    while i < all.len()
        invariant
            i <= all.len(),
            contents(all@).len() == all.len(),
            (Endpoint { ip: ip@, port }) == after_lines(start, contents(all@).take(i as int)),
        decreases all.len() - i,
    {
        let line = &all[i];
        proof {
            reveal_strlit("c=IN IP4 ");
            assert(contents(all@).take(i + 1).drop_last() == contents(all@).take(i as int));
            assert(contents(all@).take(i + 1).last() == line@);
        }
        if starts_with(line, "c=IN IP4 ") {
            let address = slice_of(line, 9, line.len());
            assert(address@ == line@.skip(9));
            ip = trim(&address);
        } else if starts_with(line, "m=audio ") {
            let all_words = words(line);
            assert(contents(all_words@).len() == all_words.len());
            if all_words.len() > 1 {
                assert(contents(all_words@)[1] == all_words@[1]@);
                port = match parse_u16(&all_words[1]) {
                    Some(p) => p,
                    None => 0,
                };
            }
        }
        i = i + 1;
    }
    assert(contents(all@).take(i as int) == contents(all@));
    if ip.len() > 0 && port > 0 {
        let address = text_of(&ip);
        Some(format_socket(address.as_str(), port as u32))
    } else {
        None
    }
}

/// The port of the first audio line that has a second word, if that word is a port.
pub open spec fn first_audio_port(lines: Seq<Seq<char>>) -> Option<u16>
    decreases lines.len(),
{
    if lines.len() == 0 {
        None
    } else if is_audio_line(lines.first()) && second_word(lines.first()) is Some {
        u16_of(second_word(lines.first())->0)
    } else {
        first_audio_port(lines.drop_first())
    }
}

/// The audio port that a session description gives.
pub fn audio_port(text: &str) -> (r: Option<u16>)
    ensures
        r == first_audio_port(lines_of(text@)),
{
    let all = lines(&chars_of(text));
    let mut i: usize = 0;
    assert(contents(all@).skip(0) == contents(all@));
    while i < all.len()
        invariant
            i <= all.len(),
            contents(all@).len() == all.len(),
            contents(all@) == lines_of(text@),
            first_audio_port(lines_of(text@)) == first_audio_port(contents(all@).skip(i as int)),
        decreases all.len() - i,
    {
        let line = &all[i];
        assert(contents(all@).skip(i as int).first() == line@);
        assert(contents(all@).skip(i as int).drop_first() == contents(all@).skip(i + 1));
        if starts_with(line, "m=audio ") {
            let all_words = words(line);
            assert(contents(all_words@).len() == all_words.len());
            if all_words.len() > 1 {
                assert(contents(all_words@)[1] == all_words@[1]@);
                return parse_u16(&all_words[1]);
            }
        }
        i = i + 1;
    }
    None
}

/// Lines that give neither an address nor an audio port do not matter.
pub proof fn other_lines_do_not_matter(
    seen: Endpoint,
    before: Seq<Seq<char>>,
    line: Seq<char>,
    after: Seq<Seq<char>>,
)
    requires
        !is_connection_line(line),
        !is_audio_line(line),
    ensures
        after_lines(seen, before.push(line) + after) == after_lines(seen, before + after),
    decreases after.len(),
{
    let long = before.push(line) + after;
    let short = before + after;
    if after.len() == 0 {
        assert(long.drop_last() == before);
        assert(short == before);
    } else {
        other_lines_do_not_matter(seen, before, line, after.drop_last());
        assert(long.drop_last() == before.push(line) + after.drop_last());
        assert(short.drop_last() == before + after.drop_last());
    }
}

/// Of several addresses and ports in a description, the last of each counts: what follows a part of
/// the description is read as if it came after what that part gave.
pub proof fn later_lines_count(seen: Endpoint, first: Seq<Seq<char>>, second: Seq<Seq<char>>)
    ensures
        after_lines(seen, first + second) == after_lines(after_lines(seen, first), second),
    decreases second.len(),
{
    let all = first + second;
    if second.len() == 0 {
        assert(all == first);
    } else {
        later_lines_count(seen, first, second.drop_last());
        assert(all.drop_last() == first + second.drop_last());
    }
}

/// A description of audio at an address and a port, with formats that follow the port.
pub open spec fn audio_description(ip: Seq<char>, port: u16, formats: Seq<char>) -> Seq<char> {
    "c=IN IP4 "@ + ip + "\r\n"@ + "m=audio "@ + decimal(port as nat) + " "@ + formats + "\r\n"@
}

/// The connection line of a description.
spec fn connection_line(ip: Seq<char>) -> Seq<char> {
    "c=IN IP4 "@ + ip
}

/// The audio line of a description.
spec fn audio_line(port: u16, formats: Seq<char>) -> Seq<char> {
    "m=audio "@ + decimal(port as nat) + " "@ + formats
}

/// A connection line gives its address.
proof fn lemma_connection_line(ip: Seq<char>)
    requires
        ip.len() > 0,
        forall|i: int| 0 <= i < ip.len() ==> !is_white_space(#[trigger] ip[i]),
    ensures
        is_connection_line(connection_line(ip)),
        !is_audio_line(connection_line(ip)),
        connection_address(connection_line(ip)) == ip,
        forall|i: int|
            0 <= i < connection_line(ip).len() ==> #[trigger] connection_line(ip)[i] != '\n',
{
    reveal_strlit("c=IN IP4 ");
    reveal_strlit("m=audio ");
    let line = connection_line(ip);
    assert(line.subrange(0, 9) == "c=IN IP4 "@);
    assert(line.skip(9) == ip);
    lemma_trimmed_alone(ip);
    assert(line[0] == 'c');
    assert forall|i: int| 0 <= i < line.len() implies #[trigger] line[i] != '\n' by {
        if i >= 9 {
            assert(line[i] == ip[i - 9]);
        }
    }
}

/// An audio line gives its port.
proof fn lemma_audio_line(port: u16, formats: Seq<char>)
    requires
        forall|i: int| 0 <= i < formats.len() ==> #[trigger] formats[i] != '\n',
    ensures
        !is_connection_line(audio_line(port, formats)),
        is_audio_line(audio_line(port, formats)),
        second_word(audio_line(port, formats)) == Some(decimal(port as nat)),
        forall|i: int|
            0 <= i < audio_line(port, formats).len() ==> #[trigger] audio_line(port, formats)[i]
                != '\n',
{
    reveal_strlit("c=IN IP4 ");
    reveal_strlit("m=audio ");
    reveal_strlit(" ");
    let line = audio_line(port, formats);
    let digits = decimal(port as nat);
    lemma_decimal_digits(port as nat);
    assert(line.subrange(0, 8) == "m=audio "@);
    assert(line[0] == 'm');
    let label = "m=audio "@.take(7);
    let after_label = digits + seq![' '] + formats;
    assert(line == label + seq![' '] + after_label);
    lemma_first_word(label, ' ', after_label);
    assert forall|i: int| 0 <= i < digits.len() implies !is_white_space(#[trigger] digits[i]) by {
        assert(is_digit(digits[i]));
    }
    lemma_first_word(digits, ' ', formats);
    assert(words_of(line)[1] == digits);
    assert forall|i: int| 0 <= i < line.len() implies #[trigger] line[i] != '\n' by {
        if 8 <= i < 8 + digits.len() {
            assert(line[i] == digits[i - 8]);
            assert(is_digit(digits[i - 8]));
        } else if 9 + digits.len() <= i {
            assert(line[i] == formats[i - 9 - digits.len()]);
        }
    }
}

/// A text of two lines, each closed by a carriage return and a line feed.
proof fn lemma_two_lines(first: Seq<char>, second: Seq<char>)
    requires
        forall|i: int| 0 <= i < first.len() ==> #[trigger] first[i] != '\n',
        forall|i: int| 0 <= i < second.len() ==> #[trigger] second[i] != '\n',
    ensures
        lines_of(first + "\r\n"@ + second + "\r\n"@) == seq![first, second],
{
    reveal_strlit("\r\n");
    let text = first + "\r\n"@ + second + "\r\n"@;
    let tail = second.push('\r') + seq!['\n'] + Seq::<char>::empty();
    assert(text == first.push('\r') + seq!['\n'] + tail);
    lemma_first_line(first.push('\r'), tail);
    lemma_first_line(second.push('\r'), Seq::empty());
    assert(first.push('\r').drop_last() == first);
    assert(second.push('\r').drop_last() == second);
}

/// A description of audio at an address without white space and a port other than zero gives that
/// address and that port.
pub proof fn described_audio_is_found(ip: Seq<char>, port: u16, formats: Seq<char>)
    requires
        ip.len() > 0,
        forall|i: int| 0 <= i < ip.len() ==> !is_white_space(#[trigger] ip[i]),
        port > 0,
        forall|i: int| 0 <= i < formats.len() ==> #[trigger] formats[i] != '\n',
    ensures
        rtp_target_of(audio_description(ip, port, formats)) == Some(socket_text(ip, port as nat)),
        first_audio_port(lines_of(audio_description(ip, port, formats))) == Some(port),
{
    let connection = connection_line(ip);
    let audio = audio_line(port, formats);
    lemma_connection_line(ip);
    lemma_audio_line(port, formats);
    lemma_two_lines(connection, audio);
    decimal_reads_back(port);
    assert(audio_description(ip, port, formats) == connection + "\r\n"@ + audio + "\r\n"@);
    let all = seq![connection, audio];
    reveal_with_fuel(after_lines, 3);
    assert(all.drop_last() == seq![connection]);
    assert(all.drop_last().drop_last() == Seq::<Seq<char>>::empty());
    assert(all.drop_first() == seq![audio]);
    reveal_with_fuel(first_audio_port, 3);
}

/// A line that gives an address gives no audio port, and the other way round.
proof fn lemma_lines_differ(line: Seq<char>)
    ensures
        !("c=IN IP4 "@.is_prefix_of(line) && "m=audio "@.is_prefix_of(line)),
        "c=IN IP4 "@.len() == 9,
{
    reveal_strlit("c=IN IP4 ");
    reveal_strlit("m=audio ");
    if "c=IN IP4 "@.is_prefix_of(line) && "m=audio "@.is_prefix_of(line) {
        assert("c=IN IP4 "@[0] == line[0]);
        assert("m=audio "@[0] == line[0]);
    }
}

/// The address that is read is that of the last connection line, wherever it stands and whatever has
/// been read before it. Without a connection line the address stays what it was.
pub proof fn last_connection_line_counts(
    seen: Endpoint,
    before: Seq<Seq<char>>,
    line: Seq<char>,
    after: Seq<Seq<char>>,
)
    requires
        "c=IN IP4 "@.is_prefix_of(line),
        forall|i: int| 0 <= i < after.len() ==> !"c=IN IP4 "@.is_prefix_of(#[trigger] after[i]),
    ensures
        after_lines(seen, before.push(line) + after).ip == trimmed(line.skip(9)),
        after_lines(seen, after).ip == seen.ip,
    decreases after.len(),
{
    let all = before.push(line) + after;
    lemma_lines_differ(line);
    if after.len() == 0 {
        assert(all.drop_last() == before);
        assert(all.last() == line);
    } else {
        let fewer = after.drop_last();
        assert forall|i: int| 0 <= i < fewer.len() implies !"c=IN IP4 "@.is_prefix_of(
            #[trigger] fewer[i],
        ) by {
            assert(fewer[i] == after[i]);
        }
        last_connection_line_counts(seen, before, line, fewer);
        assert(all.drop_last() == before.push(line) + fewer);
        assert(all.last() == after[after.len() - 1]);
    }
}

/// The port that is read is that of the last audio line with a second word, wherever it stands and
/// whatever has been read before it: the number that the word writes, or zero. Without such a line the
/// port stays what it was.
pub proof fn last_audio_line_counts(
    seen: Endpoint,
    before: Seq<Seq<char>>,
    line: Seq<char>,
    after: Seq<Seq<char>>,
)
    requires
        "m=audio "@.is_prefix_of(line),
        words_of(line).len() > 1,
        forall|i: int|
            0 <= i < after.len() ==> !("m=audio "@.is_prefix_of(#[trigger] after[i]) && words_of(
                after[i],
            ).len() > 1),
    ensures
        u16_of(words_of(line)[1]) matches Some(port) ==> after_lines(
            seen,
            before.push(line) + after,
        ).port == port,
        u16_of(words_of(line)[1]) is None ==> after_lines(seen, before.push(line) + after).port == 0,
        after_lines(seen, after).port == seen.port,
    decreases after.len(),
{
    let all = before.push(line) + after;
    lemma_lines_differ(line);
    if after.len() == 0 {
        assert(all.drop_last() == before);
        assert(all.last() == line);
    } else {
        let fewer = after.drop_last();
        assert forall|i: int| 0 <= i < fewer.len() implies !("m=audio "@.is_prefix_of(
            #[trigger] fewer[i],
        ) && words_of(fewer[i]).len() > 1) by {
            assert(fewer[i] == after[i]);
        }
        last_audio_line_counts(seen, before, line, fewer);
        assert(all.drop_last() == before.push(line) + fewer);
        assert(all.last() == after[after.len() - 1]);
    }
}

/// Some lines before the `i`th, that line, and the lines after it.
proof fn lemma_parted(lines: Seq<Seq<char>>, i: int)
    requires
        0 <= i < lines.len(),
    ensures
        lines == lines.take(i).push(lines[i]) + lines.skip(i + 1),
        forall|j: int| 0 <= j < lines.len() - i - 1 ==> #[trigger] lines.skip(i + 1)[j] == lines[i + 1
            + j],
{
}

/// The target of a description is made of its last connection line and of its last audio line with a
/// second word, in whichever order the two stand. There is one exactly where the address is not
/// empty and the word writes a port other than zero.
pub proof fn target_is_made_of_the_last_lines(text: Seq<char>, i: int, j: int)
    requires
        0 <= i < lines_of(text).len(),
        0 <= j < lines_of(text).len(),
        "c=IN IP4 "@.is_prefix_of(lines_of(text)[i]),
        forall|k: int|
            i < k < lines_of(text).len() ==> !"c=IN IP4 "@.is_prefix_of(#[trigger] lines_of(text)[k]),
        "m=audio "@.is_prefix_of(lines_of(text)[j]),
        words_of(lines_of(text)[j]).len() > 1,
        forall|k: int|
            j < k < lines_of(text).len() ==> !("m=audio "@.is_prefix_of(#[trigger] lines_of(text)[k])
                && words_of(lines_of(text)[k]).len() > 1),
    ensures
        ({
            let ip = trimmed(lines_of(text)[i].skip(9));
            let port = u16_of(words_of(lines_of(text)[j])[1]);
            &&& rtp_target_of(text) is Some <==> ip.len() > 0 && port is Some && port->0 > 0
            &&& rtp_target_of(text) matches Some(target) ==> target == ip + ":"@ + decimal(
                port->0 as nat,
            )
        }),
{
    let lines = lines_of(text);
    let start = Endpoint { ip: Seq::empty(), port: 0 };
    lemma_parted(lines, i);
    lemma_parted(lines, j);
    last_connection_line_counts(start, lines.take(i), lines[i], lines.skip(i + 1));
    last_audio_line_counts(start, lines.take(j), lines[j], lines.skip(j + 1));
}

/// A description without a connection line, or without an audio line that has a second word, gives
/// no target.
pub proof fn target_needs_both_lines(text: Seq<char>)
    requires
        ({
            ||| forall|k: int|
                0 <= k < lines_of(text).len() ==> !"c=IN IP4 "@.is_prefix_of(
                    #[trigger] lines_of(text)[k],
                )
            ||| forall|k: int|
                0 <= k < lines_of(text).len() ==> !("m=audio "@.is_prefix_of(
                    #[trigger] lines_of(text)[k],
                ) && words_of(lines_of(text)[k]).len() > 1)
        }),
    ensures
        rtp_target_of(text) is None,
{
    let lines = lines_of(text);
    let start = Endpoint { ip: Seq::empty(), port: 0 };
    if forall|k: int| 0 <= k < lines.len() ==> !"c=IN IP4 "@.is_prefix_of(#[trigger] lines[k]) {
        assert("c=IN IP4 "@.subrange(0, "c=IN IP4 "@.len() as int) == "c=IN IP4 "@);
        last_connection_line_counts(start, Seq::empty(), "c=IN IP4 "@, lines);
    } else {
        lemma_audio_line(1, Seq::empty());
        let line = audio_line(1, Seq::empty());
        last_audio_line_counts(start, Seq::empty(), line, lines);
    }
}

/// The audio port of a description is what the second word of its first audio line with one writes;
/// later lines do not matter.
pub proof fn first_audio_line_counts(lines: Seq<Seq<char>>, j: int)
    requires
        0 <= j <= lines.len(),
        forall|k: int|
            0 <= k < j ==> !("m=audio "@.is_prefix_of(#[trigger] lines[k]) && words_of(
                lines[k],
            ).len() > 1),
        j < lines.len() ==> "m=audio "@.is_prefix_of(lines[j]) && words_of(lines[j]).len() > 1,
    ensures
        j < lines.len() ==> first_audio_port(lines) == u16_of(words_of(lines[j])[1]),
        j == lines.len() ==> first_audio_port(lines) is None,
    decreases j,
{
    if j > 0 {
        assert(lines[0] == lines.first());
        let rest = lines.drop_first();
        assert forall|k: int| 0 <= k < j - 1 implies !("m=audio "@.is_prefix_of(#[trigger] rest[k])
            && words_of(rest[k]).len() > 1) by {
            assert(rest[k] == lines[k + 1]);
        }
        first_audio_line_counts(rest, j - 1);
    }
}

/// A description of audio gives its address and its port also where the audio line comes first.
pub proof fn order_of_the_lines_does_not_matter(ip: Seq<char>, port: u16, formats: Seq<char>)
    requires
        ip.len() > 0,
        forall|i: int| 0 <= i < ip.len() ==> !is_white_space(#[trigger] ip[i]),
        port > 0,
        forall|i: int| 0 <= i < formats.len() ==> #[trigger] formats[i] != '\n',
    ensures
        ({
            let connection = "c=IN IP4 "@ + ip + "\r\n"@;
            let audio = "m=audio "@ + decimal(port as nat) + " "@ + formats + "\r\n"@;
            let target = ip + ":"@ + decimal(port as nat);
            &&& rtp_target_of(connection + audio) == Some(target)
            &&& rtp_target_of(audio + connection) == Some(target)
            &&& first_audio_port(lines_of(connection + audio)) == Some(port)
            &&& first_audio_port(lines_of(audio + connection)) == Some(port)
        }),
{
    let connection = connection_line(ip);
    let audio = audio_line(port, formats);
    lemma_connection_line(ip);
    lemma_audio_line(port, formats);
    decimal_reads_back(port);
    lemma_lines_differ(connection);
    lemma_two_lines(connection, audio);
    lemma_two_lines(audio, connection);
    let one = connection + "\r\n"@ + audio + "\r\n"@;
    let other = audio + "\r\n"@ + connection + "\r\n"@;
    assert(("c=IN IP4 "@ + ip + "\r\n"@) + ("m=audio "@ + decimal(port as nat) + " "@ + formats
        + "\r\n"@) == one);
    assert(("m=audio "@ + decimal(port as nat) + " "@ + formats + "\r\n"@) + ("c=IN IP4 "@ + ip
        + "\r\n"@) == other);
    target_is_made_of_the_last_lines(one, 0, 1);
    target_is_made_of_the_last_lines(other, 1, 0);
    first_audio_line_counts(lines_of(one), 1);
    first_audio_line_counts(lines_of(other), 0);
}

} // verus!
