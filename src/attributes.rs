use vstd::prelude::*;
use vstd::string::StringExecFns;

verus! {

/// One key/value attribute of an item asset.
#[derive(Debug)]
pub struct Attribute {
    pub key: String,
    pub value: String,
}

impl View for Attribute {
    type V = (Seq<char>, Seq<char>);

    open spec fn view(&self) -> (Seq<char>, Seq<char>) {
        (self.key@, self.value@)
    }
}

pub open spec fn attributes_view(list: Seq<Attribute>) -> Seq<(Seq<char>, Seq<char>)> {
    list.map_values(|a: Attribute| a@)
}

impl Attribute {
    pub fn new(key: &str, value: String) -> (r: Attribute)
        ensures
            r@ == (key@, value@),
    {
        Attribute { key: String::from_str(key), value }
    }

    pub fn copy(&self) -> (r: Attribute)
        ensures
            r@ == self@,
    {
        Attribute { key: self.key.clone(), value: self.value.clone() }
    }
}

pub open spec fn digit_char(d: nat) -> char {
    if d == 0 {
        '0'
    } else if d == 1 {
        '1'
    } else if d == 2 {
        '2'
    } else if d == 3 {
        '3'
    } else if d == 4 {
        '4'
    } else if d == 5 {
        '5'
    } else if d == 6 {
        '6'
    } else if d == 7 {
        '7'
    } else if d == 8 {
        '8'
    } else {
        '9'
    }
}

/// The decimal representation of `n`, without sign or leading zeros.
pub open spec fn decimal(n: nat) -> Seq<char>
    decreases n,
{
    if n < 10 {
        seq![digit_char(n)]
    } else {
        decimal(n / 10) + seq![digit_char(n % 10)]
    }
}

/// Relies on `u64`'s `ToString` (through `Display`): the decimal digits of the
/// value, without sign or leading zeros.
#[verifier::external_body]
pub(crate) fn u64_to_decimal(v: u64) -> (r: String)
    ensures
        r@ == decimal(v as nat),
{
    v.to_string()
}

/// The value of a run of decimal digits, when every character is a digit.
pub open spec fn digits_value(s: Seq<char>) -> Option<nat>
    decreases s.len(),
{
    if s.len() == 0 {
        Some(0)
    } else {
        let c = s.last();
        match digits_value(s.drop_last()) {
            Some(v) => if '0' <= c && c <= '9' {
                Some((10 * v + (c as nat - '0' as nat)) as nat)
            } else {
                None
            },
            None => None,
        }
    }
}

/// What parsing `s` as a `u64` gives: an optional `+`, then one or more
/// decimal digits whose value fits in 64 bits.
pub open spec fn parse_u64_spec(s: Seq<char>) -> Option<u64> {
    let body = if s.len() > 0 && s[0] == '+' {
        s.drop_first()
    } else {
        s
    };
    if body.len() == 0 {
        None
    } else {
        match digits_value(body) {
            Some(v) => if v <= u64::MAX {
                Some(v as u64)
            } else {
                None
            },
            None => None,
        }
    }
}

/// Relies on `str::parse::<u64>`: it accepts an optional `+` followed by one
/// or more ASCII digits whose value fits in a `u64`, and nothing else.
#[verifier::external_body]
pub(crate) fn parse_u64(s: &String) -> (r: Option<u64>)
    ensures
        r == parse_u64_spec(s@),
{
    s.parse::<u64>().ok()
}

/// Index of the first attribute whose key is `key`.
pub open spec fn first_with_key(list: Seq<(Seq<char>, Seq<char>)>, key: Seq<char>) -> Option<int>
    decreases list.len(),
{
    if list.len() == 0 {
        None
    } else {
        match first_with_key(list.drop_last(), key) {
            Some(i) => Some(i),
            None => if list.last().0 == key {
                Some(list.len() - 1)
            } else {
                None
            },
        }
    }
}

/// The value of the first attribute whose key is `key`.
pub open spec fn value_of(list: Seq<(Seq<char>, Seq<char>)>, key: Seq<char>) -> Option<Seq<char>> {
    match first_with_key(list, key) {
        Some(i) => Some(list[i].1),
        None => None,
    }
}

proof fn lemma_first_with_key_bound(list: Seq<(Seq<char>, Seq<char>)>, key: Seq<char>)
    ensures
        match first_with_key(list, key) {
            Some(i) => 0 <= i < list.len() && list[i].0 == key,
            None => true,
        },
    decreases list.len(),
{
    if list.len() > 0 {
        lemma_first_with_key_bound(list.drop_last(), key);
    }
}

/// Finds the value of the first attribute whose key is `key`.
pub fn find_value(list: &Vec<Attribute>, key: &str) -> (r: Option<String>)
    ensures
        match r {
            Some(v) => value_of(attributes_view(list@), key@) == Some(v@),
            None => value_of(attributes_view(list@), key@) is None,
        },
{
    let k = String::from_str(key);
    let ghost full = attributes_view(list@);
    let mut i: usize = 0;
    while i < list.len()
        invariant
            i <= list@.len(),
            k@ == key@,
            full == attributes_view(list@),
            first_with_key(full.subrange(0, i as int), key@) is None,
        decreases list@.len() - i,
    {
        proof {
            assert(full.subrange(0, i + 1).drop_last() =~= full.subrange(0, i as int));
        }
        if list[i].key == k {
            proof {
                lemma_prefix_first(full, key@, i as int);
            }
            return Some(list[i].value.clone());
        }
        i = i + 1;
    }
    proof {
        assert(full.subrange(0, i as int) =~= full);
    }
    None
}

/// A hit after a prefix without one is the first hit in the whole list.
proof fn lemma_prefix_first(list: Seq<(Seq<char>, Seq<char>)>, key: Seq<char>, i: int)
    requires
        0 <= i < list.len(),
        first_with_key(list.subrange(0, i), key) is None,
        list[i].0 == key,
    ensures
        first_with_key(list, key) == Some(i),
    decreases list.len(),
{
    assert(list.subrange(0, i + 1).drop_last() =~= list.subrange(0, i));
    if list.len() > i + 1 {
        assert(list.drop_last().subrange(0, i) =~= list.subrange(0, i));
        lemma_prefix_first(list.drop_last(), key, i);
    } else {
        assert(list.subrange(0, i + 1) =~= list);
    }
}

} // verus!
