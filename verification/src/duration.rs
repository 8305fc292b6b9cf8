use crate::error::Error;
use crate::number::{
    decimal, decimal_of, i32_value, i8_value, lemma_decimal_reads_back, read_integer,
};
use crate::text::{
    chars_of, lemma_find_from_is, lemma_find_from_none, matches_at, push_all, rows,
    split, split_chars, split_from, string_of,
};
use vstd::prelude::*;

verus! {

pub const SECONDS_HOUR: i32 = 3600;

pub const SECONDS_MIN: i32 = 60;

/// What separates the segments of a duration.
pub open spec fn delimiter() -> Seq<char> {
    seq![':']
}

/// The value of the segments of a duration, the most significant first:
/// each is worth sixty of the next. A segment must read as a 32-bit integer.
pub open spec fn segments_value(segments: Seq<Seq<char>>) -> Option<int>
    decreases segments.len(),
{
    if segments.len() == 0 {
        Some(0)
    } else {
        match (segments_value(segments.drop_last()), i32_value(segments.last())) {
            (Some(higher), Some(lowest)) => Some(higher * 60 + lowest),
            _ => None,
        }
    }
}

/// The seconds that duration text stands for: its last segment counts
/// seconds, the one before minutes, the one before hours, and so on in
/// sixties. `None` where a segment is no integer.
pub open spec fn duration_value(text: Seq<char>) -> Option<int> {
    segments_value(split(text, delimiter()))
}

/// `duration_value`, where it is a 32-bit integer.
pub open spec fn duration_seconds(text: Seq<char>) -> Option<int> {
    match duration_value(text) {
        Some(n) => if i32::MIN <= n <= i32::MAX {
            Some(n)
        } else {
            None
        },
        None => None,
    }
}

/// The whole hours in `n` seconds, rounded towards zero.
pub open spec fn hours_of(n: int) -> int {
    if n >= 0 {
        n / 3600
    } else {
        -((-n) / 3600)
    }
}

/// The whole minutes left in `n` seconds after its hours.
pub open spec fn minutes_of(n: int) -> int {
    if n >= 0 {
        (n % 3600) / 60
    } else {
        -(((-n) % 3600) / 60)
    }
}

/// The seconds left in `n` seconds after its hours and minutes.
pub open spec fn seconds_of(n: int) -> int {
    if n >= 0 {
        n % 60
    } else {
        -((-n) % 60)
    }
}

/// `n` seconds as hours, minutes and seconds, written without padding.
pub open spec fn clock_text(n: int) -> Seq<char> {
    decimal(hours_of(n)) + delimiter() + decimal(minutes_of(n)) + delimiter() + decimal(
        seconds_of(n),
    )
}

/// The position after `position`, as text.
pub open spec fn next_position(position: Seq<char>) -> Option<Seq<char>> {
    match i8_value(position) {
        Some(n) => Some(decimal(n + 1)),
        None => None,
    }
}

/// Converts a duration string to a number of seconds. Fails with
/// `InvalidData` where a segment is no integer or the seconds do not fit.
pub fn duration_seconds_parse(duration: &str) -> (seconds: Result<i32, Error>)
    ensures
        match seconds {
            Ok(n) => duration_seconds(duration@) == Some(n as int),
            Err(e) => e == Error::InvalidData && duration_seconds(duration@) is None,
        },
{
    let text = chars_of(duration);
    let mut separator: Vec<char> = Vec::new();
    separator.push(':');
    assert(separator@ == delimiter());
    let parts = split_chars(&text, &separator);
    let ghost segments = rows(parts@);
    // `valid`: every segment so far is an integer. `exact`: the value so far
    // is a 32-bit integer, held in `acc`; once it is not, it never is again.
    let mut valid: bool = true;
    let mut exact: bool = true;
    let mut acc: i64 = 0;
    let mut i: usize = 0;
    while i < parts.len()
        invariant
            i <= parts.len(),
            segments == rows(parts@),
            valid <==> segments_value(segments.take(i as int)) is Some,
            valid && exact ==> segments_value(segments.take(i as int)) == Some(acc as int)
                && i32::MIN <= acc <= i32::MAX,
            valid && !exact ==> {
                let value = segments_value(segments.take(i as int))->0;
                value < i32::MIN || value > i32::MAX
            },
        decreases parts.len() - i,
    {
        let ghost before = segments.take(i as int);
        let ghost after = segments.take(i + 1);
        assert(after.drop_last() == before);
        assert(after.last() == parts@[i as int]@);
        match read_integer(&parts[i], true, -2_147_483_648, 2_147_483_647) {
            None => {
                valid = false;
            },
            Some(segment) => {
                if valid && exact {
                    let next: i64 = acc * 60 + segment;
                    if next < -2_147_483_648 || next > 2_147_483_647 {
                        exact = false;
                    } else {
                        acc = next;
                    }
                }
            },
        }
        i += 1;
    }
    assert(segments.take(parts.len() as int) == segments);
    if valid && exact {
        Ok(acc as i32)
    } else {
        Err(Error::InvalidData)
    }
}

/// Converts a number of seconds to a duration string of three segments:
/// hours, minutes, seconds.
pub fn duration_seconds_format(seconds_total: i32) -> (text: Result<String, Error>)
    ensures
        text matches Ok(t) && t@ == clock_text(seconds_total as int),
{
    let total: i64 = seconds_total as i64;
    let negative = total < 0;
    let magnitude: i64 = if negative {
        -total
    } else {
        total
    };
    let hours: i64 = magnitude / 3600;
    let minutes: i64 = (magnitude % 3600) / 60;
    let seconds: i64 = magnitude % 60;
    let mut out: Vec<char> = decimal_of(
        if negative {
            -hours
        } else {
            hours
        },
    );
    out.push(':');
    let m = decimal_of(
        if negative {
            -minutes
        } else {
            minutes
        },
    );
    push_all(&mut out, &m);
    out.push(':');
    let s = decimal_of(
        if negative {
            -seconds
        } else {
            seconds
        },
    );
    push_all(&mut out, &s);
    assert(out@ == clock_text(seconds_total as int));
    Ok(string_of(&out))
}

/// Returns an integer plus one as a string. The integer is read as a
/// position: a signed number of eight bits. Fails with `InvalidData` where
/// `pos` is none.
pub fn get_next_str(pos: &str) -> (next: Result<String, Error>)
    ensures
        match next {
            Ok(text) => next_position(pos@) == Some(text@),
            Err(e) => e == Error::InvalidData && next_position(pos@) is None,
        },
{
    let text = chars_of(pos);
    match read_integer(&text, true, -128, 127) {
        Some(n) => Ok(string_of(&decimal_of(n + 1))),
        None => Err(Error::InvalidData),
    }
}

/// Up to a delimiter that is the first one from `from` on, the text is one
/// piece; the rest is split from behind that delimiter.
pub proof fn lemma_split_at_delimiter(text: Seq<char>, from: int, at: int)
    requires
        0 <= from <= at < text.len(),
        text[at] == ':',
        forall|j: int| from <= j < at ==> text[j] != ':',
    ensures
        split_from(text, delimiter(), from) == seq![text.subrange(from, at)] + split_from(
            text,
            delimiter(),
            at + 1,
        ),
{
    assert(matches_at(text, delimiter(), at)) by {
        assert(text.subrange(at, at + 1) == delimiter());
    }
    assert forall|j: int| from <= j < at implies !matches_at(text, delimiter(), j) by {
        if matches_at(text, delimiter(), j) {
            assert(text.subrange(j, j + 1)[0] == ':');
        }
    }
    lemma_find_from_is(text, delimiter(), from, at);
}

/// Text without a delimiter from `from` on is one piece.
pub proof fn lemma_split_without_delimiter(text: Seq<char>, from: int)
    requires
        0 <= from <= text.len(),
        forall|j: int| from <= j < text.len() ==> text[j] != ':',
    ensures
        split_from(text, delimiter(), from) == seq![text.subrange(from, text.len() as int)],
{
    assert forall|j: int| from <= j implies !matches_at(text, delimiter(), j) by {
        if matches_at(text, delimiter(), j) {
            assert(text.subrange(j, j + 1)[0] == ':');
        }
    }
    lemma_find_from_none(text, delimiter(), from);
}

/// Formatting a number of seconds and parsing the text gives the number
/// back, for every 32-bit number, negative ones too.
pub proof fn law_format_then_parse(n: int)
    requires
        i32::MIN <= n <= i32::MAX,
    ensures
        duration_seconds(clock_text(n)) == Some(n),
{
    let h = hours_of(n);
    let m = minutes_of(n);
    let s = seconds_of(n);
    let dh = decimal(h);
    let dm = decimal(m);
    let ds = decimal(s);
    let text = clock_text(n);
    lemma_decimal_reads_back(h);
    lemma_decimal_reads_back(m);
    lemma_decimal_reads_back(s);
    let first = dh.len() as int;
    let second = first + 1 + dm.len();
    assert(text.len() == second + 1 + ds.len());
    assert forall|j: int| 0 <= j < first implies text[j] != ':' by {
        assert(text[j] == dh[j]);
    }
    assert forall|j: int| first + 1 <= j < second implies text[j] != ':' by {
        assert(text[j] == dm[j - first - 1]);
    }
    assert forall|j: int| second + 1 <= j < text.len() implies text[j] != ':' by {
        assert(text[j] == ds[j - second - 1]);
    }
    lemma_split_at_delimiter(text, 0, first);
    lemma_split_at_delimiter(text, first + 1, second);
    lemma_split_without_delimiter(text, second + 1);
    assert(text.subrange(0, first) == dh);
    assert(text.subrange(first + 1, second) == dm);
    assert(text.subrange(second + 1, text.len() as int) == ds);
    let parts = split(text, delimiter());
    assert(parts == seq![dh, dm, ds]);
    assert(parts.drop_last() == seq![dh, dm]);
    assert(parts.drop_last().drop_last() == seq![dh]);
    assert(parts.drop_last().drop_last().drop_last() == Seq::<Seq<char>>::empty());
    assert(segments_value(Seq::<Seq<char>>::empty()) == Some(0int));
    assert(seq![dh].drop_last() == Seq::<Seq<char>>::empty());
    assert(i32_value(dh) == Some(h));
    assert(i32_value(dm) == Some(m));
    assert(i32_value(ds) == Some(s));
    assert(segments_value(seq![dh]) == Some(h));
    assert(segments_value(seq![dh, dm]) == Some(h * 60 + m));
    assert(segments_value(parts) == Some((h * 60 + m) * 60 + s));
}

} // verus!
