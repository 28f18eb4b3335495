//! Timestamp formatting, message previews and vCard parsing.

use vstd::prelude::*;
use vstd::string::StringSliceAdditionalSpecFns;
use vstd::utf8::{decode_utf8, encode_utf8, encode_utf8_decode_utf8, is_char_boundary};
use crate::text::{
    chars_of, has_prefix, push_decimal, push_text, slice_of, split_chars,
    split_on, starts_with, string_of, text_of, texts_of, trim_chars, trimmed, views_of, decimal_of_nat,
};

verus! {

/// `a / b` rounded toward zero.
pub open spec fn div_toward_zero(a: int, b: int) -> int
    recommends
        b > 0,
{
    if a >= 0 {
        a / b
    } else {
        -((-a) / b)
    }
}

/// How long ago `timestamp` (milliseconds since the epoch) lies, seen from
/// `now_secs` (seconds since the epoch), in words.
pub open spec fn relative_time(timestamp: int, now_secs: int) -> Seq<char> {
    let diff = now_secs - div_toward_zero(timestamp, 1000);
    if diff < 60 {
        "Just now"@
    } else if diff < 3600 {
        decimal_of_nat((diff / 60) as nat) + " min ago"@
    } else if diff < 86400 {
        decimal_of_nat((diff / 3600) as nat) + " hours ago"@
    } else if diff < 604800 {
        decimal_of_nat((diff / 86400) as nat) + " days ago"@
    } else {
        "More than a week ago"@
    }
}

/// Formats a Unix timestamp (in milliseconds) as a time relative to
/// `now_secs`, the current time in seconds.
pub fn format_timestamp(timestamp: i64, now_secs: i64) -> (out: String)
    ensures
        out@ == relative_time(timestamp as int, now_secs as int),
{
    let t: i128 = timestamp as i128;
    let secs: i128 = if t >= 0 {
        t / 1000
    } else {
        -((-t) / 1000)
    };
    let diff: i128 = now_secs as i128 - secs;
    if diff < 60 {
        String::from_str("Just now")
    } else if diff < 3600 {
        let mut out = String::new();
        push_decimal(&mut out, (diff / 60) as u64);
        push_text(&mut out, " min ago");
        proof {
            assert(out@ =~= decimal_of_nat((diff / 60) as nat) + " min ago"@);
        }
        out
    } else if diff < 86400 {
        let mut out = String::new();
        push_decimal(&mut out, (diff / 3600) as u64);
        push_text(&mut out, " hours ago");
        proof {
            assert(out@ =~= decimal_of_nat((diff / 3600) as nat) + " hours ago"@);
        }
        out
    } else if diff < 604800 {
        let mut out = String::new();
        push_decimal(&mut out, (diff / 86400) as u64);
        push_text(&mut out, " days ago");
        proof {
            assert(out@ =~= decimal_of_nat((diff / 86400) as nat) + " days ago"@);
        }
        out
    } else {
        String::from_str("More than a week ago")
    }
}

/// `s` cut to its first `max_len` bytes of UTF-8 with an ellipsis behind
/// them, or `s` itself where it is no longer than that.
pub open spec fn truncated(s: Seq<char>, max_len: int) -> Seq<char> {
    if encode_utf8(s).len() > max_len {
        decode_utf8(encode_utf8(s).subrange(0, max_len)) + "..."@
    } else {
        s
    }
}

/// Truncates a string to a maximum length in bytes, adding an ellipsis if
/// anything was cut. A cut must not fall inside a character.
pub fn truncate_message(s: &str, max_len: usize) -> (out: String)
    requires
        s.spec_bytes().len() > max_len ==> is_char_boundary(s.spec_bytes(), max_len as int),
    ensures
        out@ == truncated(s@, max_len as int),
{
    if s.as_bytes().len() > max_len {
        let (head, _) = s.split_at(max_len);
        let mut out = String::from_str(head);
        push_text(&mut out, "...");
        proof {
            encode_utf8_decode_utf8(head@);
            assert(head.spec_bytes() == encode_utf8(head@));
            assert(s.spec_bytes() == encode_utf8(s@));
            assert(encode_utf8(head@) == encode_utf8(s@).subrange(0, max_len as int));
            assert(head@ == decode_utf8(encode_utf8(s@).subrange(0, max_len as int)));
            assert(out@ =~= head@ + "..."@);
        }
        out
    } else {
        String::from_str(s)
    }
}

/// The position of the last `c` in `s`, or -1 where there is none.
pub open spec fn last_index_of(s: Seq<char>, c: char) -> int
    decreases s.len(),
{
    if s.len() == 0 {
        -1
    } else if s.last() == c {
        s.len() - 1
    } else {
        last_index_of(s.drop_last(), c)
    }
}

/// The position of the last `c` in `v`.
pub fn find_last(v: &Vec<char>, c: char) -> (r: Option<usize>)
    ensures
        match r {
            Some(i) => i < v.len() && last_index_of(v@, c) == i,
            None => last_index_of(v@, c) == -1,
        },
{
    let mut i: usize = v.len();
    proof {
        assert(v@.take(v.len() as int) =~= v@);
    }
    while i > 0
        invariant
            i <= v.len(),
            last_index_of(v@, c) == last_index_of(v@.take(i as int), c),
        decreases i,
    {
        if v[i - 1] == c {
            return Some(i - 1);
        }
        proof {
            assert(v@.take(i as int).drop_last() =~= v@.take(i - 1));
        }
        i -= 1;
    }
    None
}

/// What a vCard yields: the contact's name, if it gives one, and its phone
/// numbers in the order of their lines.
pub struct VCardFields {
    pub name: Option<Seq<char>>,
    pub phones: Seq<Seq<char>>,
}

/// The fields read so far, after one more line. `FN:` gives the name; `N:`
/// gives it, given name before family name, while no name is known; a line
/// that begins with `TEL` gives a number, the text behind its last colon.
pub open spec fn vcard_line(fields: VCardFields, raw: Seq<char>) -> VCardFields {
    let line = trimmed(raw);
    if starts_with(line, "FN:"@) {
        VCardFields { name: Some(trimmed(line.skip(3))), ..fields }
    } else if fields.name is None && starts_with(line, "N:"@) {
        let parts = split_on(line.skip(2), ';');
        let full = trimmed(trimmed(parts[1]) + seq![' '] + trimmed(parts[0]));
        if parts.len() >= 2 && full.len() > 0 {
            VCardFields { name: Some(full), ..fields }
        } else {
            fields
        }
    } else if starts_with(line, "TEL"@) {
        let colon = last_index_of(line, ':');
        let phone = trimmed(line.skip(colon + 1));
        if colon >= 0 && phone.len() > 0 {
            VCardFields { phones: fields.phones.push(phone), ..fields }
        } else {
            fields
        }
    } else {
        fields
    }
}

/// The fields of the lines of a vCard, read in order.
pub open spec fn vcard_lines(lines: Seq<Seq<char>>) -> VCardFields
    decreases lines.len(),
{
    if lines.len() == 0 {
        VCardFields { name: None, phones: Seq::empty() }
    } else {
        vcard_line(vcard_lines(lines.drop_last()), lines.last())
    }
}

/// The fields of a vCard.
pub open spec fn vcard_fields(content: Seq<char>) -> VCardFields {
    vcard_lines(split_on(content, '\n'))
}

/// Parses a vCard to extract the name and the phone numbers.
pub fn parse_vcard(content: &str) -> (r: (Option<String>, Vec<String>))
    ensures
        text_of(r.0) == vcard_fields(content@).name,
        views_of(r.1@) == vcard_fields(content@).phones,
{
    let all = chars_of(content);
    let lines = split_chars(&all, '\n');
    let mut name: Option<String> = None;
    let mut phones: Vec<String> = Vec::new();
    let ghost rows = texts_of(lines@);
    let mut i: usize = 0;
    proof {
        reveal_strlit("FN:");
        reveal_strlit("N:");
        reveal_strlit("TEL");
        assert(rows.take(0) =~= Seq::<Seq<char>>::empty());
        assert(views_of(phones@) =~= Seq::<Seq<char>>::empty());
    }
    while i < lines.len()
        invariant
            i <= lines.len(),
            rows == texts_of(lines@),
            "FN:"@.len() == 3,
            "N:"@.len() == 2,
            text_of(name) == vcard_lines(rows.take(i as int)).name,
            views_of(phones@) == vcard_lines(rows.take(i as int)).phones,
        decreases lines.len() - i,
    {
        proof {
            assert(rows.take(i + 1).drop_last() =~= rows.take(i as int));
            assert(rows.take(i + 1).last() == lines@[i as int]@);
        }
        let ghost before = vcard_lines(rows.take(i as int));
        let line = trim_chars(&lines[i]);
        if has_prefix(&line, "FN:") {
            let rest = slice_of(&line, 3, line.len());
            proof {
                assert(line@.subrange(3, line@.len() as int) =~= line@.skip(3));
            }
            name = Some(string_of(&trim_chars(&rest)));
        } else if name.is_none() && has_prefix(&line, "N:") {
            let rest = slice_of(&line, 2, line.len());
            proof {
                assert(line@.subrange(2, line@.len() as int) =~= line@.skip(2));
            }
            let parts = split_chars(&rest, ';');
            if parts.len() >= 2 {
                let mut joined = trim_chars(&parts[1]);
                joined.push(' ');
                let mut family = trim_chars(&parts[0]);
                proof {
                    assert(texts_of(parts@)[1] == parts@[1]@);
                    assert(texts_of(parts@)[0] == parts@[0]@);
                }
                let ghost given = joined@;
                joined.append(&mut family);
                let full = trim_chars(&joined);
                proof {
                    assert(joined@ =~= trimmed(parts@[1]@) + seq![' '] + trimmed(parts@[0]@));
                }
                if full.len() > 0 {
                    name = Some(string_of(&full));
                }
            }
        } else if has_prefix(&line, "TEL") {
            match find_last(&line, ':') {
                Some(colon) => {
                    let rest = slice_of(&line, colon + 1, line.len());
                    proof {
                        assert(line@.subrange(colon + 1, line@.len() as int) =~= line@.skip(
                            colon + 1,
                        ));
                    }
                    let phone = trim_chars(&rest);
                    if phone.len() > 0 {
                        let ghost old_phones = views_of(phones@);
                        phones.push(string_of(&phone));
                        proof {
                            assert(views_of(phones@) =~= old_phones.push(phone@));
                        }
                    }
                },
                None => {},
            }
        }
        i += 1;
    }
    proof {
        assert(rows.take(lines.len() as int) =~= rows);
    }
    (name, phones)
}

} // verus!
