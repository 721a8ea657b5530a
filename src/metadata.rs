//! The metadata property bag of a track, and the decoding of its fields.
use vstd::prelude::*;
use crate::error::{is_missing_tag, Error};
use crate::text::{join, joined, texts};
use crate::wire::{metadata_key, PlayerMetadata};

verus! {

/// A value of the property bag, by its shape on the bus.
#[derive(Clone, Debug, PartialEq)]
pub enum PropValue {
    Str(String),
    StrList(Vec<String>),
    Bool(bool),
    Int(i64),
    UInt(u64),
    /// Any other shape the player may send.
    Other,
}

/// Keys and values of a metadata bag; no key occurs twice.
#[derive(Clone, Debug)]
pub struct PropertyBag {
    entries: Vec<(String, PropValue)>,
}

/// The value under `key` in a list of entries, the first one where keys repeat.
pub open spec fn find_value(entries: Seq<(String, PropValue)>, key: Seq<char>) -> Option<PropValue>
    decreases entries.len(),
{
    if entries.len() == 0 {
        None
    } else if entries[0].0@ == key {
        Some(entries[0].1)
    } else {
        find_value(entries.drop_first(), key)
    }
}

proof fn lemma_find_absent(entries: Seq<(String, PropValue)>, key: Seq<char>)
    requires
        forall|i: int| 0 <= i < entries.len() ==> entries[i].0@ != key,
    ensures
        find_value(entries, key) is None,
    decreases entries.len(),
{
    if entries.len() > 0 {
        assert forall|i: int| 0 <= i < entries.drop_first().len() implies entries.drop_first()[i].0@
            != key by {
            assert(entries.drop_first()[i] == entries[i + 1]);
        }
        lemma_find_absent(entries.drop_first(), key);
    }
}

proof fn lemma_find_at(entries: Seq<(String, PropValue)>, key: Seq<char>, i: int)
    requires
        0 <= i < entries.len(),
        entries[i].0@ == key,
        forall|j: int| 0 <= j < i ==> entries[j].0@ != key,
    ensures
        find_value(entries, key) == Some(entries[i].1),
    decreases i,
{
    if i > 0 {
        assert forall|j: int| 0 <= j < i - 1 implies entries.drop_first()[j].0@ != key by {
            assert(entries.drop_first()[j] == entries[j + 1]);
        }
        lemma_find_at(entries.drop_first(), key, i - 1);
    }
}

impl PropertyBag {
    /// The value under a key.
    pub open spec fn value_of(&self, key: Seq<char>) -> Option<PropValue> {
        find_value(self.entries_view(), key)
    }

    pub closed spec fn entries_view(&self) -> Seq<(String, PropValue)> {
        self.entries@
    }

    /// No key occurs twice.
    pub closed spec fn wf(&self) -> bool {
        forall|i: int, j: int|
            0 <= i < j < self.entries@.len() ==> #[trigger] self.entries@[i].0@
                != #[trigger] self.entries@[j].0@
    }

    /// An empty bag.
    pub fn new() -> (r: PropertyBag)
        ensures
            r.wf(),
            forall|k: Seq<char>| #[trigger] r.value_of(k) is None,
    {
        PropertyBag { entries: Vec::new() }
    }

    fn position_of(&self, key: &str) -> (r: Option<usize>)
        ensures
            match r {
                Some(i) => i < self.entries@.len() && self.entries@[i as int].0@ == key@ && forall|
                    j: int,
                | 0 <= j < i ==> self.entries@[j].0@ != key@,
                None => forall|j: int|
                    0 <= j < self.entries@.len() ==> self.entries@[j].0@ != key@,
            },
    {
        let wanted = key.to_owned();
        let mut i: usize = 0;
        while i < self.entries.len()
            invariant
                i <= self.entries@.len(),
                wanted@ == key@,
                forall|j: int| 0 <= j < i ==> self.entries@[j].0@ != key@,
            decreases self.entries@.len() - i,
        {
            if self.entries[i].0 == wanted {
                return Some(i);
            }
            i = i + 1;
        }
        None
    }

    /// The value under a key, if there is one.
    pub fn get(&self, key: &str) -> (r: Option<&PropValue>)
        ensures
            r == match self.value_of(key@) {
                Some(v) => Some(&v),
                None => None::<&PropValue>,
            },
    {
        match self.position_of(key) {
            Some(i) => {
                proof {
                    lemma_find_at(self.entries@, key@, i as int);
                }
                Some(&self.entries[i].1)
            },
            None => {
                proof {
                    lemma_find_absent(self.entries@, key@);
                }
                None
            },
        }
    }

    /// Puts `value` under `key`, replacing what was there.
    pub fn insert(&mut self, key: String, value: PropValue)
        requires
            old(self).wf(),
        ensures
            final(self).wf(),
            final(self).value_of(key@) == Some(value),
            forall|k: Seq<char>|
                k != key@ ==> #[trigger] final(self).value_of(k) == old(self).value_of(k),
    {
        let ghost before = self.entries@;
        match self.position_of(key.as_str()) {
            Some(i) => {
                self.entries.set(i, (key, value));
                proof {
                    assert forall|k: Seq<char>| #[trigger]
                        find_value(self.entries@, k) == find_value(before, k) || k
                            == before[i as int].0@ by {
                        if k != before[i as int].0@ {
                            if exists|j: int| 0 <= j < before.len() && before[j].0@ == k {
                                let j = choose|j: int| 0 <= j < before.len() && before[j].0@ == k;
                                assert(j != i);
                                let first = Self::first_at(before, k, j);
                                assert(self.entries@[first] == before[first]);
                                lemma_find_at(before, k, first);
                                lemma_find_at(self.entries@, k, first);
                            } else {
                                lemma_find_absent(before, k);
                                lemma_find_absent(self.entries@, k);
                            }
                        }
                    }
                    lemma_find_at(self.entries@, key@, i as int);
                }
            },
            None => {
                self.entries.push((key, value));
                proof {
                    assert forall|k: Seq<char>| k != key@ implies #[trigger] find_value(
                        self.entries@,
                        k,
                    ) == find_value(before, k) by {
                        if exists|j: int| 0 <= j < before.len() && before[j].0@ == k {
                            let j = choose|j: int| 0 <= j < before.len() && before[j].0@ == k;
                            let first = Self::first_at(before, k, j);
                            lemma_find_at(before, k, first);
                            lemma_find_at(self.entries@, k, first);
                        } else {
                            lemma_find_absent(before, k);
                            lemma_find_absent(self.entries@, k);
                        }
                    }
                    lemma_find_at(self.entries@, key@, before.len() as int);
                }
            },
        }
    }

    /// The first index at or before `j` whose key is `k`.
    proof fn first_at(s: Seq<(String, PropValue)>, k: Seq<char>, j: int) -> (r: int)
        requires
            0 <= j < s.len(),
            s[j].0@ == k,
        ensures
            0 <= r <= j,
            s[r].0@ == k,
            forall|m: int| 0 <= m < r ==> s[m].0@ != k,
        decreases j,
    {
        if exists|m: int| 0 <= m < j && s[m].0@ == k {
            let m = choose|m: int| 0 <= m < j && s[m].0@ == k;
            Self::first_at(s, k, m)
        } else {
            j
        }
    }
}

/// What a metadata field reads as, given the value under its key: the artist
/// field is a list of strings, joined with commas; every other field is a
/// single string. `None` where the value is absent or of another shape.
pub open spec fn field_text(field: PlayerMetadata, value: Option<PropValue>) -> Option<Seq<char>> {
    match value {
        Some(PropValue::StrList(v)) => if field is Artist {
            Some(joined(texts(v@), ","@))
        } else {
            None
        },
        Some(PropValue::Str(s)) => if field is Artist {
            None
        } else {
            Some(s@)
        },
        _ => None,
    }
}

/// An artist list of one name reads as that name; one of two names reads as
/// both, with a comma between them; an absent artist reads as nothing.
pub proof fn law_artist_names(v: Vec<String>)
    ensures
        v@.len() == 1 ==> field_text(PlayerMetadata::Artist, Some(PropValue::StrList(v))) == Some(
            v@[0]@,
        ),
        v@.len() == 2 ==> field_text(PlayerMetadata::Artist, Some(PropValue::StrList(v))) == Some(
            v@[0]@ + ","@ + v@[1]@,
        ),
        field_text(PlayerMetadata::Artist, None) is None,
{
    reveal_with_fuel(joined, 3);
    if v@.len() == 2 {
        assert(texts(v@).drop_last() =~= seq![v@[0]@]);
    }
}

/// Reads one field out of the metadata bag.
pub fn decode_field(bag: &PropertyBag, field: PlayerMetadata) -> (r: Result<String, Error>)
    ensures
        match field_text(field, bag.value_of(metadata_key(field))) {
            Some(t) => r is Ok && r->Ok_0@ == t,
            None => r is Err && is_missing_tag(r->Err_0),
        },
{
    let value = bag.get(field.as_str());
    match field {
        PlayerMetadata::Artist => match value {
            Some(PropValue::StrList(v)) => Ok(join(v, ",")),
            _ => Err(Error::missing_tag()),
        },
        _ => match value {
            Some(PropValue::Str(s)) => Ok(s.clone()),
            _ => Err(Error::missing_tag()),
        },
    }
}

pub open spec fn is_digit(c: char) -> bool {
    '0' <= c <= '9'
}

pub open spec fn digit_value(c: char) -> nat {
    (c as u32 - '0' as u32) as nat
}

/// The number that a string of decimal digits writes.
pub open spec fn digits_value(s: Seq<char>) -> nat
    decreases s.len(),
{
    if s.len() == 0 {
        0
    } else {
        digits_value(s.drop_last()) * 10 + digit_value(s.last())
    }
}

/// Every character is a decimal digit.
pub open spec fn all_digits(s: Seq<char>) -> bool {
    forall|i: int| 0 <= i < s.len() ==> is_digit(#[trigger] s[i])
}

/// The text after an optional leading `+`.
pub open spec fn unsigned_body(s: Seq<char>) -> Seq<char> {
    if s.len() > 0 && s[0] == '+' {
        s.drop_first()
    } else {
        s
    }
}

/// An unsigned 64-bit integer in decimal: an optional `+`, then one or more
/// digits, with a value that fits.
pub open spec fn parsed_u64(s: Seq<char>) -> Option<u64> {
    let body = unsigned_body(s);
    if body.len() > 0 && all_digits(body) && digits_value(body) <= u64::MAX {
        Some(digits_value(body) as u64)
    } else {
        None
    }
}

proof fn lemma_digits_grow(s: Seq<char>, k: int)
    requires
        0 <= k <= s.len(),
    ensures
        digits_value(s.take(k)) <= digits_value(s),
    decreases s.len() - k,
{
    if k < s.len() {
        assert(s.take(k + 1).drop_last() =~= s.take(k));
        lemma_digits_grow(s, k + 1);
    } else {
        assert(s.take(k) =~= s);
    }
}

/// Parses an unsigned 64-bit decimal integer.
pub fn parse_u64(text: &str) -> (r: Option<u64>)
    ensures
        r == parsed_u64(text@),
{
    let n = text.unicode_len();
    let mut start: usize = 0;
    if n > 0 && text.get_char(0) == '+' {
        start = 1;
    }
    let ghost body = unsigned_body(text@);
    if start == n {
        return None;
    }
    let mut value: u64 = 0;
    let mut i: usize = start;
    while i < n
        invariant
            start <= i <= n,
            n == text@.len(),
            start == 0 || start == 1,
            body == unsigned_body(text@),
            body == text@.subrange(start as int, n as int),
            forall|j: int| 0 <= j < i - start ==> is_digit(#[trigger] body[j]),
            value as nat == digits_value(body.take(i - start)),
        decreases n - i,
    {
        let c = text.get_char(i);
        if c < '0' || c > '9' {
            proof {
                assert(!is_digit(body[i - start]));
                assert(!all_digits(body));
            }
            return None;
        }
        let d = (c as u32 - '0' as u32) as u64;
        assert(body.take(i - start + 1).drop_last() =~= body.take(i - start));
        if value > (u64::MAX - d) / 10 {
            proof {
                assert(digits_value(body.take(i - start + 1)) > u64::MAX) by (nonlinear_arith)
                    requires
                        digits_value(body.take(i - start + 1)) == value * 10 + d,
                        value > (u64::MAX - d) / 10,
                        d <= 9,
                ;
                lemma_digits_grow(body, i - start + 1);
                assert(digits_value(body) > u64::MAX);
            }
            return None;
        }
        proof {
            assert(value * 10 + d <= u64::MAX) by (nonlinear_arith)
                requires
                    value <= (u64::MAX - d) / 10,
                    d <= 9,
            ;
        }
        value = value * 10 + d;
        i = i + 1;
    }
    assert(body.take(n - start) =~= body);
    Some(value)
}

/// Microseconds written in a length field; text that is no such number counts as zero.
pub fn length_micros(text: &str) -> (r: u64)
    ensures
        r == match parsed_u64(text@) {
            Some(v) => v,
            None => 0,
        },
{
    match parse_u64(text) {
        Some(v) => v,
        None => 0,
    }
}

} // verus!
