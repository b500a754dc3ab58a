//! AMF0 values as the relay's logic reads and builds them.
//!
//! A number is kept as the 64 bits of its IEEE-754 double, so that values can
//! be compared and copied exactly. An object is a mapping from keys to
//! values. It is held as a list of properties, and a key is looked up from
//! the front; `keys_unique` says that no object holds a key twice, and then
//! the order of the list does not matter. A strict array is a list of
//! values.

use vstd::prelude::*;

verus! {

/// The bits of the double `0.0`.
pub const NUMBER_ZERO: u64 = 0;

/// The bits of the double `1.0`.
pub const NUMBER_ONE: u64 = 0x3FF0_0000_0000_0000;

/// The bits of the double `2.0`.
pub const NUMBER_TWO: u64 = 0x4000_0000_0000_0000;

#[derive(Debug)]
pub enum Amf0Value {
    /// A double, by its bits.
    Number(u64),
    Boolean(bool),
    Utf8String(String),
    Object(Vec<(String, Amf0Value)>),
    StrictArray(Vec<Amf0Value>),
    Null,
    Undefined,
}

/// What an [`Amf0Value`] stands for.
pub enum Amf0View {
    Number(u64),
    Boolean(bool),
    Utf8String(Seq<char>),
    Object(Seq<(Seq<char>, Amf0View)>),
    StrictArray(Seq<Amf0View>),
    Null,
    Undefined,
}

impl Amf0Value {
    /// What this value stands for.
    pub open spec fn model(&self) -> Amf0View
        decreases self,
    {
        match self {
            Amf0Value::Number(n) => Amf0View::Number(*n),
            Amf0Value::Boolean(b) => Amf0View::Boolean(*b),
            Amf0Value::Utf8String(s) => Amf0View::Utf8String(s@),
            Amf0Value::Object(props) => Amf0View::Object(
                Seq::new(
                    props@.len(),
                    |i: int|
                        if 0 <= i < props@.len() {
                            (props@[i].0@, props@[i].1.model())
                        } else {
                            (Seq::empty(), Amf0View::Null)
                        },
                ),
            ),
            Amf0Value::StrictArray(items) => Amf0View::StrictArray(
                Seq::new(
                    items@.len(),
                    |i: int|
                        if 0 <= i < items@.len() {
                            items@[i].model()
                        } else {
                            Amf0View::Null
                        },
                ),
            ),
            Amf0Value::Null => Amf0View::Null,
            Amf0Value::Undefined => Amf0View::Undefined,
        }
    }
}

impl View for Amf0Value {
    type V = Amf0View;

    open spec fn view(&self) -> Amf0View {
        self.model()
    }
}

/// The views of a list of values, in order.
pub open spec fn values_view(values: Seq<Amf0Value>) -> Seq<Amf0View> {
    Seq::new(values.len(), |i: int| values[i]@)
}

/// The value of the first property of `props`, at or after index `from`, whose
/// key is `key`.
pub open spec fn lookup_from(props: Seq<(Seq<char>, Amf0View)>, key: Seq<char>, from: int) -> Option<
    Amf0View,
>
    decreases props.len() - from,
{
    if from < 0 || from >= props.len() {
        None
    } else if props[from].0 == key {
        Some(props[from].1)
    } else {
        lookup_from(props, key, from + 1)
    }
}

impl Amf0View {
    /// The property `key` of an object; `None` for a missing key and for a
    /// value that is no object.
    pub open spec fn get(self, key: Seq<char>) -> Option<Amf0View> {
        match self {
            Amf0View::Object(props) => lookup_from(props, key, 0),
            _ => None,
        }
    }
}

/// No key occurs twice among the properties.
pub open spec fn keys_distinct(props: Seq<(Seq<char>, Amf0View)>) -> bool {
    forall|i: int, j: int| 0 <= i < j < props.len() ==> props[i].0 != props[j].0
}

impl Amf0View {
    /// Every object in this value, at any depth, holds each of its keys
    /// once: it is a mapping from keys to values.
    pub open spec fn keys_unique(self) -> bool
        decreases self,
    {
        match self {
            Amf0View::Object(props) => keys_distinct(props) && forall|i: int|
                0 <= i < props.len() ==> (#[trigger] props[i]).1.keys_unique(),
            Amf0View::StrictArray(items) => forall|i: int|
                0 <= i < items.len() ==> (#[trigger] items[i]).keys_unique(),
            _ => true,
        }
    }
}

/// In an object whose keys are distinct a property is found by its key,
/// wherever it stands.
pub proof fn lemma_get_by_key(props: Seq<(Seq<char>, Amf0View)>, i: int)
    requires
        keys_distinct(props),
        0 <= i < props.len(),
    ensures
        Amf0View::Object(props).get(props[i].0) == Some(props[i].1),
{
    lemma_lookup_from(props, props[i].0, 0);
}

/// What `lookup_from` finds is the first property at or after `from` with
/// that key; it finds none only where there is none.
pub proof fn lemma_lookup_from(props: Seq<(Seq<char>, Amf0View)>, key: Seq<char>, from: int)
    requires
        0 <= from,
    ensures
        match lookup_from(props, key, from) {
            Some(v) => exists|k: int|
                {
                    &&& from <= k < props.len()
                    &&& #[trigger] props[k] == (key, v)
                    &&& forall|j: int| from <= j < k ==> props[j].0 != key
                },
            None => forall|j: int| from <= j < props.len() ==> props[j].0 != key,
        },
    decreases props.len() - from,
{
    if from < props.len() {
        if props[from].0 == key {
            assert(props[from] == (key, props[from].1));
        } else {
            lemma_lookup_from(props, key, from + 1);
            if let Some(v) = lookup_from(props, key, from + 1) {
                let k = choose|k: int|
                    {
                        &&& from + 1 <= k < props.len()
                        &&& #[trigger] props[k] == (key, v)
                        &&& forall|j: int| from + 1 <= j < k ==> props[j].0 != key
                    };
                assert(props[k] == (key, v));
            }
        }
    }
}

/// The order of an object's properties does not matter: two objects with
/// distinct keys that hold the same properties give the same value under
/// every key.
pub proof fn lemma_order_irrelevant(
    a: Seq<(Seq<char>, Amf0View)>,
    b: Seq<(Seq<char>, Amf0View)>,
    key: Seq<char>,
)
    requires
        keys_distinct(a),
        keys_distinct(b),
        forall|i: int| 0 <= i < a.len() ==> b.contains(#[trigger] a[i]),
        forall|i: int| 0 <= i < b.len() ==> a.contains(#[trigger] b[i]),
    ensures
        Amf0View::Object(a).get(key) == Amf0View::Object(b).get(key),
{
    lemma_lookup_from(a, key, 0);
    lemma_lookup_from(b, key, 0);
    match lookup_from(a, key, 0) {
        Some(v) => {
            let k = choose|k: int| 0 <= k < a.len() && #[trigger] a[k] == (key, v);
            assert(b.contains(a[k]));
            let m = choose|m: int| 0 <= m < b.len() && b[m] == a[k];
            lemma_get_by_key(b, m);
        },
        None => {
            if let Some(w) = lookup_from(b, key, 0) {
                let m = choose|m: int| 0 <= m < b.len() && #[trigger] b[m] == (key, w);
                assert(a.contains(b[m]));
                let k = choose|k: int| 0 <= k < a.len() && a[k] == b[m];
                assert(a[k].0 == key);
            }
        },
    }
}

/// The integer that a cast of the double with these bits to `u32` gives:
/// the integer part, with everything below zero (and NaN) taken to `0` and
/// everything above `u32::MAX` taken to `u32::MAX`.
pub open spec fn number_to_u32(bits: u64) -> u32 {
    let negative = bits >= 0x8000_0000_0000_0000;
    let exponent = (bits / 0x10_0000_0000_0000) % 0x800;
    let fraction = bits % 0x10_0000_0000_0000;
    if negative || exponent < 1023 {
        0
    } else if exponent == 0x7ff && fraction != 0 {
        0
    } else if exponent >= 1055 {
        u32::MAX
    } else {
        ((0x10_0000_0000_0000 + fraction) / pow2_u64((1075 - exponent) as nat)) as u32
    }
}

/// Two to the power `n`.
pub open spec fn pow2_u64(n: nat) -> int
    decreases n,
{
    if n == 0 {
        1
    } else {
        2 * pow2_u64((n - 1) as nat)
    }
}

proof fn lemma_pow2_monotone(a: nat, b: nat)
    requires
        a <= b,
    ensures
        1 <= pow2_u64(a) <= pow2_u64(b),
    decreases b,
{
    if a < b {
        lemma_pow2_monotone(a, (b - 1) as nat);
    } else if a > 0 {
        lemma_pow2_monotone((a - 1) as nat, (b - 1) as nat);
    }
}

proof fn lemma_pow2_bounds(n: nat)
    requires
        n <= 52,
    ensures
        1 <= pow2_u64(n) <= 0x10_0000_0000_0000,
        n >= 21 ==> pow2_u64(n) >= 0x20_0000,
{
    assert(pow2_u64(21) == 0x20_0000) by {
        reveal_with_fuel(pow2_u64, 22);
    }
    assert(pow2_u64(52) == 0x10_0000_0000_0000) by {
        reveal_with_fuel(pow2_u64, 53);
    }
    lemma_pow2_monotone(n, 52);
    if n >= 21 {
        lemma_pow2_monotone(21, n);
    }
}

/// The integer part of the double with bits `bits`, as a cast to `u32` gives it.
pub fn number_as_u32(bits: u64) -> (r: u32)
    ensures
        r == number_to_u32(bits),
{
    let negative = bits >= 0x8000_0000_0000_0000;
    let exponent: u64 = (bits / 0x10_0000_0000_0000) % 0x800;
    let fraction: u64 = bits % 0x10_0000_0000_0000;
    if negative || exponent < 1023 {
        0
    } else if exponent == 0x7ff && fraction != 0 {
        0
    } else if exponent >= 1055 {
        u32::MAX
    } else {
        let shift: u64 = 1075 - exponent;
        let mut divisor: u64 = 1;
        let mut i: u64 = 0;
        while i < shift
            invariant
                i <= shift <= 52,
                divisor == pow2_u64(i as nat),
            decreases shift - i,
        {
            proof {
                lemma_pow2_bounds(i as nat);
            }
            divisor = divisor * 2;
            i += 1;
        }
        proof {
            lemma_pow2_bounds(shift as nat);
            assert((0x10_0000_0000_0000 + fraction) / (divisor as int) <= 0xFFFF_FFFF) by (nonlinear_arith)
                requires
                    fraction < 0x10_0000_0000_0000,
                    divisor >= 0x20_0000,
            ;
        }
        ((0x10_0000_0000_0000 + fraction) / divisor) as u32
    }
}

impl Clone for Amf0Value {
    fn clone(&self) -> (r: Self)
        ensures
            r@ == self@,
        decreases self,
    {
        match self {
            Amf0Value::Number(n) => Amf0Value::Number(*n),
            Amf0Value::Boolean(b) => Amf0Value::Boolean(*b),
            Amf0Value::Utf8String(s) => Amf0Value::Utf8String(s.clone()),
            Amf0Value::Object(props) => {
                let mut out: Vec<(String, Amf0Value)> = Vec::new();
                let mut i: usize = 0;
                while i < props.len()
                    invariant
                        self->Object_0 == *props,
                        *self is Object,
                        i <= props.len(),
                        out@.len() == i,
                        forall|j: int|
                            0 <= j < i ==> out@[j].0@ == props@[j].0@ && out@[j].1@ == props@[j].1@,
                    decreases props.len() - i,
                {
                    proof {
                        vstd::std_specs::vec::axiom_vec_index_decreases(*props, i as int);
                        assert(decreases_to!(*self => self->Object_0));
                    }
                    let k = props[i].0.clone();
                    let v = props[i].1.clone();
                    out.push((k, v));
                    i += 1;
                }
                let r = Amf0Value::Object(out);
                assert(r@->Object_0 =~= self@->Object_0);
                r
            },
            Amf0Value::StrictArray(items) => {
                let mut out: Vec<Amf0Value> = Vec::new();
                let mut i: usize = 0;
                while i < items.len()
                    invariant
                        self->StrictArray_0 == *items,
                        *self is StrictArray,
                        i <= items.len(),
                        out@.len() == i,
                        forall|j: int| 0 <= j < i ==> out@[j]@ == items@[j]@,
                    decreases items.len() - i,
                {
                    proof {
                        vstd::std_specs::vec::axiom_vec_index_decreases(*items, i as int);
                        assert(decreases_to!(*self => self->StrictArray_0));
                    }
                    out.push(items[i].clone());
                    i += 1;
                }
                let r = Amf0Value::StrictArray(out);
                assert(r@->StrictArray_0 =~= self@->StrictArray_0);
                r
            },
            Amf0Value::Null => Amf0Value::Null,
            Amf0Value::Undefined => Amf0Value::Undefined,
        }
    }
}

impl Amf0Value {
    /// The property `key` of an object.
    pub fn get(&self, key: &str) -> (r: Option<&Amf0Value>)
        ensures
            match r {
                Some(v) => self@.get(key@) == Some(v@),
                None => self@.get(key@) is None,
            },
    {
        match self {
            Amf0Value::Object(props) => {
                let wanted = key.to_owned();
                let mut i: usize = 0;
                while i < props.len()
                    invariant
                        self->Object_0 == *props,
                        *self is Object,
                        wanted@ == key@,
                        i <= props.len(),
                        self@->Object_0.len() == props.len(),
                        lookup_from(self@->Object_0, key@, 0) == lookup_from(
                            self@->Object_0,
                            key@,
                            i as int,
                        ),
                    decreases props.len() - i,
                {
                    assert(self@->Object_0[i as int] == (props@[i as int].0@, props@[i as int].1@));
                    if props[i].0 == wanted {
                        return Some(&props[i].1);
                    }
                    i += 1;
                }
                None
            },
            _ => None,
        }
    }

    /// Whether every object in this value, at any depth, holds each of its
    /// keys once.
    pub fn has_unique_keys(&self) -> (r: bool)
        ensures
            r == self@.keys_unique(),
        decreases self,
    {
        match self {
            Amf0Value::Object(props) => {
                let ghost shown = self@->Object_0;
                let mut i: usize = 0;
                while i < props.len()
                    invariant
                        self->Object_0 == *props,
                        *self is Object,
                        shown == self@->Object_0,
                        shown.len() == props.len(),
                        i <= props.len(),
                        forall|a: int, b: int| 0 <= a < b < i ==> shown[a].0 != shown[b].0,
                        forall|a: int| 0 <= a < i ==> (#[trigger] shown[a]).1.keys_unique(),
                    decreases props.len() - i,
                {
                    proof {
                        vstd::std_specs::vec::axiom_vec_index_decreases(*props, i as int);
                        assert(decreases_to!(*self => self->Object_0));
                    }
                    assert(shown[i as int] == (props@[i as int].0@, props@[i as int].1@));
                    if !props[i].1.has_unique_keys() {
                        assert(!shown[i as int].1.keys_unique());
                        return false;
                    }
                    let mut j: usize = 0;
                    while j < i
                        invariant
                            self->Object_0 == *props,
                            *self is Object,
                            shown == self@->Object_0,
                            shown.len() == props.len(),
                            j <= i < props.len(),
                            forall|a: int| 0 <= a < j ==> shown[a].0 != shown[i as int].0,
                        decreases i - j,
                    {
                        assert(shown[j as int] == (props@[j as int].0@, props@[j as int].1@));
                        assert(shown[i as int] == (props@[i as int].0@, props@[i as int].1@));
                        if props[j].0 == props[i].0 {
                            assert(shown[j as int].0 == shown[i as int].0);
                            return false;
                        }
                        j += 1;
                    }
                    i += 1;
                }
                true
            },
            Amf0Value::StrictArray(items) => {
                let ghost shown = self@->StrictArray_0;
                let mut i: usize = 0;
                while i < items.len()
                    invariant
                        self->StrictArray_0 == *items,
                        *self is StrictArray,
                        shown == self@->StrictArray_0,
                        shown.len() == items.len(),
                        i <= items.len(),
                        forall|a: int| 0 <= a < i ==> (#[trigger] shown[a]).keys_unique(),
                    decreases items.len() - i,
                {
                    proof {
                        vstd::std_specs::vec::axiom_vec_index_decreases(*items, i as int);
                        assert(decreases_to!(*self => self->StrictArray_0));
                    }
                    assert(shown[i as int] == items@[i as int]@);
                    if !items[i].has_unique_keys() {
                        assert(!shown[i as int].keys_unique());
                        return false;
                    }
                    i += 1;
                }
                true
            },
            _ => true,
        }
    }

    /// An object with the given properties, in the given order.
    pub fn object(pairs: Vec<(&str, Amf0Value)>) -> (r: Amf0Value)
        ensures
            r@ == Amf0View::Object(Seq::new(pairs@.len(), |i: int| (pairs@[i].0@, pairs@[i].1@))),
    {
        let mut pairs = pairs;
        let ghost all = pairs@;
        let mut out: Vec<(String, Amf0Value)> = Vec::new();
        while pairs.len() > 0
            invariant
                out@.len() + pairs@.len() == all.len(),
                forall|j: int|
                    0 <= j < out@.len() ==> out@[j].0@ == all[j].0@ && out@[j].1@ == all[j].1@,
                forall|j: int| 0 <= j < pairs@.len() ==> pairs@[j] == all[out@.len() + j],
            decreases pairs@.len(),
        {
            let pair = pairs.remove(0);
            let key = pair.0.to_owned();
            out.push((key, pair.1));
        }
        let r = Amf0Value::Object(out);
        assert(r@->Object_0 =~= Seq::new(all.len(), |i: int| (all[i].0@, all[i].1@)));
        r
    }
}

/// A copy of a list of values.
pub fn clone_values(values: &Vec<Amf0Value>) -> (r: Vec<Amf0Value>)
    ensures
        values_view(r@) == values_view(values@),
{
    let mut out: Vec<Amf0Value> = Vec::new();
    let mut i: usize = 0;
    while i < values.len()
        invariant
            i <= values.len(),
            out@.len() == i,
            forall|j: int| 0 <= j < i ==> out@[j]@ == values@[j]@,
        decreases values.len() - i,
    {
        out.push(values[i].clone());
        i += 1;
    }
    assert(values_view(out@) =~= values_view(values@));
    out
}

} // verus!
