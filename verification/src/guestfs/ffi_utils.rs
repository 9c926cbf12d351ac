//! C strings and null-terminated arrays, as the engine takes and hands them
//! out.

use crate::error::{outcome, Error, ErrorView};
use vstd::prelude::*;
use vstd::slice::*;
use vstd::string::*;
use vstd::utf8::*;

verus! {

/// `n` is where reading a C string stops: the index of the first zero byte
/// of `bytes`, or their length when none of them is zero.
pub open spec fn is_nul_position(bytes: Seq<u8>, n: int) -> bool {
    &&& 0 <= n <= bytes.len()
    &&& forall|i: int| 0 <= i < n ==> bytes[i] != 0u8
    &&& n < bytes.len() ==> bytes[n] == 0u8
}

/// The index of the first zero byte of `bytes`, or their length when none
/// of them is zero.
pub open spec fn nul_position(bytes: Seq<u8>) -> int {
    choose|n: int| is_nul_position(bytes, n)
}

/// Whether some byte of `bytes` is zero.
pub open spec fn has_nul(bytes: Seq<u8>) -> bool {
    exists|i: int| 0 <= i < bytes.len() && bytes[i] == 0u8
}

/// The bytes of a C string as far as they are read: those before the first
/// zero byte.
pub open spec fn c_string_content(bytes: Seq<u8>) -> Seq<u8> {
    bytes.subrange(0, nul_position(bytes))
}

/// The C string for a text: its UTF-8 bytes and the terminator.
pub open spec fn c_string(text: Seq<char>) -> Seq<u8> {
    encode_utf8(text).push(0u8)
}

/// Whether `bytes` are a C string as the engine takes it: they end with the
/// terminator and hold no other zero byte.
pub open spec fn is_c_string(bytes: Seq<u8>) -> bool {
    bytes.len() > 0 && nul_position(bytes) == bytes.len() - 1
}

/// Every byte sequence has exactly one position at which reading stops.
pub proof fn lemma_nul_position(bytes: Seq<u8>, n: int)
    requires
        is_nul_position(bytes, n),
    ensures
        nul_position(bytes) == n,
{
    let m = nul_position(bytes);
    assert(is_nul_position(bytes, m));
    if m < n {
        assert(bytes[m] != 0u8);
    } else if n < m {
        assert(bytes[n] != 0u8);
    }
}

/// Finds where reading `bytes` as a C string stops.
fn find_nul(bytes: &[u8]) -> (n: usize)
    ensures
        n == nul_position(bytes@),
        is_nul_position(bytes@, n as int),
        has_nul(bytes@) <==> n < bytes@.len(),
{
    let mut i: usize = 0;
    while i < bytes.len() && bytes[i] != 0
        invariant
            i <= bytes@.len(),
            forall|j: int| 0 <= j < i ==> bytes@[j] != 0u8,
        decreases bytes@.len() - i,
    {
        i += 1;
    }
    proof {
        lemma_nul_position(bytes@, i as int);
    }
    i
}

/// What becomes of a text as an argument for the engine: its C string, or,
/// where its bytes hold a zero, the rejection with the index of the first.
pub open spec fn encoded(text: Seq<char>) -> Result<Seq<u8>, ErrorView> {
    if has_nul(encode_utf8(text)) {
        Err(ErrorView::NulError(nul_position(encode_utf8(text)) as usize))
    } else {
        Ok(c_string(text))
    }
}

/// Encodes an argument for the engine: the text's bytes and a terminator.
///
/// A text that holds a zero byte cannot be passed as a C string; it is
/// rejected with the index of that byte.
pub fn to_c_string(text: &str) -> (r: Result<Vec<u8>, Error>)
    ensures
        outcome(r) == encoded(text@),
{
    let source = text.as_bytes();
    let n = find_nul(source);
    if n < source.len() {
        return Err(Error::NulError(n));
    }
    let mut bytes = slice_to_vec(source);
    bytes.push(0u8);
    assert(bytes.deep_view() =~= bytes@);
    Ok(bytes)
}

/// `n` is how far `bytes` are valid UTF-8: the greatest length of a prefix
/// of them that is.
pub open spec fn is_valid_up_to(bytes: Seq<u8>, n: int) -> bool {
    &&& 0 <= n <= bytes.len()
    &&& valid_utf8(bytes.subrange(0, n))
    &&& forall|m: int| n < m <= bytes.len() ==> !valid_utf8(#[trigger] bytes.subrange(0, m))
}

/// The greatest length of a prefix of `bytes` that is valid UTF-8.
pub open spec fn valid_up_to(bytes: Seq<u8>) -> int {
    choose|n: int| is_valid_up_to(bytes, n)
}

/// At most one length is the greatest.
pub proof fn lemma_valid_up_to(bytes: Seq<u8>, n: int)
    requires
        is_valid_up_to(bytes, n),
    ensures
        valid_up_to(bytes) == n,
{
    let m = valid_up_to(bytes);
    assert(is_valid_up_to(bytes, m));
}

/// The text that a C string holds: `Some` of the characters that its bytes
/// before the terminator encode, `None` where those bytes are not UTF-8.
pub open spec fn c_string_text(bytes: Seq<u8>) -> Option<Seq<char>> {
    let content = c_string_content(bytes);
    if valid_utf8(content) {
        Some(decode_utf8(content))
    } else {
        None
    }
}

/// `core::str::from_utf8`: the bytes as text where they are valid UTF-8,
/// and otherwise what the error's `valid_up_to` gives, the greatest length
/// of a prefix of them that is valid.
#[verifier::external_body]
fn utf8_text<'a>(bytes: &'a [u8]) -> (r: Result<&'a str, usize>)
    ensures
        match r {
            Ok(text) => valid_utf8(bytes@) && text.spec_bytes() == bytes@,
            Err(n) => !valid_utf8(bytes@) && is_valid_up_to(bytes@, n as int),
        },
{
    match core::str::from_utf8(bytes) {
        Ok(text) => Ok(text),
        Err(e) => Err(e.valid_up_to()),
    }
}

/// The text that `String::from_utf8_lossy` makes of bytes.
pub uninterp spec fn lossy_text(bytes: Seq<u8>) -> Seq<char>;

/// `String::from_utf8_lossy`: the bytes as text, with a replacement
/// character for what is not UTF-8 in them. Bytes that are valid UTF-8 come
/// out as the text that they encode.
#[verifier::external_body]
fn utf8_text_lossy(bytes: &[u8]) -> (r: String)
    ensures
        r@ == lossy_text(bytes@),
        valid_utf8(bytes@) ==> r@ == decode_utf8(bytes@),
{
    String::from_utf8_lossy(bytes).into_owned()
}

/// Reads a C string from the engine as text for a person to read.
///
/// Reading stops at the first zero byte. What is not UTF-8 in the bytes is
/// replaced, so that every C string gives a text.
pub fn from_c_string_lossy(bytes: &[u8]) -> (r: String)
    ensures
        r@ == lossy_text(c_string_content(bytes@)),
        c_string_text(bytes@) is Some ==> Some(r@) == c_string_text(bytes@),
{
    let n = find_nul(bytes);
    utf8_text_lossy(slice_subrange(bytes, 0, n))
}

/// What becomes of a C string from the engine: the text that it holds, or,
/// where it holds none, the report of how far its bytes are valid.
pub open spec fn decoded(bytes: Seq<u8>) -> Result<Seq<char>, ErrorView> {
    match c_string_text(bytes) {
        Some(text) => Ok(text),
        None => Err(ErrorView::Utf8Error(valid_up_to(c_string_content(bytes)) as usize)),
    }
}

/// Reads a C string from the engine as text.
///
/// Reading stops at the first zero byte. Bytes that are not UTF-8 are
/// reported, never replaced.
pub fn from_c_string(bytes: &[u8]) -> (r: Result<String, Error>)
    ensures
        outcome(r) == decoded(bytes@),
{
    let n = find_nul(bytes);
    let content = slice_subrange(bytes, 0, n);
    match utf8_text(content) {
        Ok(text) => {
            proof {
                encode_utf8_decode_utf8(text@);
            }
            Ok(text.to_owned())
        },
        Err(k) => {
            proof {
                lemma_valid_up_to(content@, k as int);
            }
            Err(Error::Utf8Error(k))
        },
    }
}

/// A text without a zero byte comes back unchanged from its C string.
pub proof fn lemma_c_string_round_trip(text: Seq<char>)
    requires
        !has_nul(encode_utf8(text)),
    ensures
        encoded(text) == Ok::<Seq<u8>, ErrorView>(c_string(text)),
        is_c_string(c_string(text)),
        c_string_content(c_string(text)) == encode_utf8(text),
        decoded(c_string(text)) == Ok::<Seq<char>, ErrorView>(text),
{
    let bytes = encode_utf8(text);
    lemma_nul_position(c_string(text), bytes.len() as int);
    assert(c_string(text).subrange(0, bytes.len() as int) =~= bytes);
    encode_utf8_valid_utf8(text);
    encode_utf8_decode_utf8(text);
}

/// `n` is where the scan of a native array stops: the index of its first
/// null slot, or the number of slots when none is null.
pub open spec fn is_sentinel_index<T>(slots: Seq<Option<T>>, n: int) -> bool {
    &&& 0 <= n <= slots.len()
    &&& forall|i: int| 0 <= i < n ==> slots[i] is Some
    &&& n < slots.len() ==> slots[n] is None
}

/// The index of the first null slot, or the number of slots when none is
/// null.
pub open spec fn sentinel_index<T>(slots: Seq<Option<T>>) -> int {
    choose|n: int| is_sentinel_index(slots, n)
}

/// Whether some slot is null.
pub open spec fn has_sentinel<T>(slots: Seq<Option<T>>) -> bool {
    exists|i: int| 0 <= i < slots.len() && slots[i] is None
}

/// What a native array holds: the values of the slots before its sentinel,
/// in their order.
pub open spec fn elements<T>(slots: Seq<Option<T>>) -> Seq<T> {
    Seq::new(sentinel_index(slots) as nat, |i: int| slots[i]->Some_0)
}

/// Every run of slots has exactly one index at which the scan stops.
pub proof fn lemma_sentinel_index<T>(slots: Seq<Option<T>>, n: int)
    requires
        is_sentinel_index(slots, n),
    ensures
        sentinel_index(slots) == n,
{
    let m = sentinel_index(slots);
    assert(is_sentinel_index(slots, m));
    if m < n {
        assert(slots[m] is Some);
    } else if n < m {
        assert(slots[n] is Some);
    }
}

/// An array of `n` values and a sentinel, with whatever memory follows it,
/// holds exactly those `n` values in their order.
pub proof fn lemma_elements_of_terminated<T>(values: Seq<T>, rest: Seq<Option<T>>)
    ensures
        elements(values.map_values(|v: T| Some(v)).push(None) + rest) == values,
{
    let slots = values.map_values(|v: T| Some(v)).push(None) + rest;
    lemma_sentinel_index(slots, values.len() as int);
    assert(elements(slots) =~= values);
}

/// A native array as far as it has been read: the slots from its base on,
/// each one null or a value.
///
/// The engine marks the end of an array by a null slot and gives no length.
/// A reader therefore takes slot after slot until that sentinel, and no slot
/// after it.
#[derive(Debug, PartialEq, Eq)]
pub struct NativeSequence<T> {
    slots: Vec<Option<T>>,
    terminated: bool,
}

impl<T> View for NativeSequence<T> {
    type V = Seq<Option<T>>;

    closed spec fn view(&self) -> Seq<Option<T>> {
        self.slots@
    }
}

impl<T> NativeSequence<T> {
    #[verifier::type_invariant]
    spec fn inv(self) -> bool {
        self.terminated == has_sentinel(self.slots@)
    }

    /// An array of which no slot has been read yet.
    pub fn new() -> (r: Self)
        ensures
            r@ == Seq::<Option<T>>::empty(),
    {
        NativeSequence { slots: Vec::new(), terminated: false }
    }

    /// A region of native memory as it was found: a run of slots, of which
    /// the first null one, if there is any, is the array's sentinel.
    pub fn from_slots(slots: Vec<Option<T>>) -> (r: Self)
        ensures
            r@ == slots@,
    {
        let mut i: usize = 0;
        while i < slots.len() && slots[i].is_some()
            invariant
                i <= slots@.len(),
                forall|j: int| 0 <= j < i ==> slots@[j] is Some,
            decreases slots@.len() - i,
        {
            i += 1;
        }
        let terminated = i < slots.len();
        NativeSequence { slots, terminated }
    }

    /// The number of slots read: the index of the slot to read next.
    pub fn len(&self) -> (n: usize)
        ensures
            n == self@.len(),
    {
        self.slots.len()
    }

    /// Whether the sentinel has been read, so that no slot is left to read.
    pub fn is_terminated(&self) -> (r: bool)
        ensures
            r == has_sentinel(self@),
    {
        proof {
            use_type_invariant(self);
        }
        self.terminated
    }

    /// Takes the next slot as read from the array, unless the sentinel has
    /// been read already: then the slot is dropped and nothing changes.
    ///
    /// Returns whether another slot is to be read.
    pub fn push(&mut self, slot: Option<T>) -> (more: bool)
        ensures
            final(self)@ == if has_sentinel(old(self)@) {
                old(self)@
            } else {
                old(self)@.push(slot)
            },
            more == (!has_sentinel(old(self)@) && slot is Some),
            more == !has_sentinel(final(self)@),
    {
        proof {
            use_type_invariant(&*self);
        }
        if self.terminated {
            return false;
        }
        let more = slot.is_some();
        let ghost before = self.slots@;
        let mut slots: Vec<Option<T>> = Vec::new();
        core::mem::swap(&mut self.slots, &mut slots);
        slots.push(slot);
        proof {
            let after = before.push(slot);
            if more {
                assert forall|i: int| 0 <= i < after.len() implies after[i] is Some by {
                    if i < before.len() {
                        assert(after[i] == before[i]);
                    }
                }
            } else {
                assert(after[before.len() as int] is None);
            }
        }
        *self = NativeSequence { slots, terminated: !more };
        more
    }
}

/// The C strings that a native array of strings holds, each as its bytes.
pub open spec fn byte_strings(slots: Seq<Option<Vec<u8>>>) -> Seq<Seq<u8>> {
    elements(slots).map_values(|bytes: Vec<u8>| bytes@)
}

/// `k` is the index of the first of `strings` that does not hold text.
pub open spec fn is_first_invalid(strings: Seq<Seq<u8>>, k: int) -> bool {
    &&& 0 <= k < strings.len()
    &&& forall|i: int| 0 <= i < k ==> c_string_text(#[trigger] strings[i]) is Some
    &&& c_string_text(strings[k]) is None
}

/// The index of the first of `strings` that does not hold text.
pub open spec fn first_invalid(strings: Seq<Seq<u8>>) -> int {
    choose|k: int| is_first_invalid(strings, k)
}

/// The texts of C strings, one for one: `Some` of them where every string
/// holds text, `None` where one of them does not.
pub open spec fn c_string_texts(strings: Seq<Seq<u8>>) -> Option<Seq<Seq<char>>> {
    if forall|i: int| 0 <= i < strings.len() ==> c_string_text(#[trigger] strings[i]) is Some {
        Some(Seq::new(strings.len(), |i: int| c_string_text(strings[i])->Some_0))
    } else {
        None
    }
}

/// What becomes of C strings from the engine: their texts, one for one, or,
/// where one of them holds no text, the report on the first such string.
pub open spec fn decoded_all(strings: Seq<Seq<u8>>) -> Result<Seq<Seq<char>>, ErrorView> {
    match c_string_texts(strings) {
        Some(texts) => Ok(texts),
        None => Err(
            ErrorView::Utf8Error(
                valid_up_to(c_string_content(strings[first_invalid(strings)])) as usize,
            ),
        ),
    }
}

/// At most one string is the first that does not hold text.
pub proof fn lemma_first_invalid(strings: Seq<Seq<u8>>, k: int)
    requires
        is_first_invalid(strings, k),
    ensures
        first_invalid(strings) == k,
        c_string_texts(strings) is None,
{
    let m = first_invalid(strings);
    assert(is_first_invalid(strings, m));
    if m < k {
        assert(c_string_text(strings[m]) is Some);
    } else if k < m {
        assert(c_string_text(strings[k]) is Some);
    }
}

/// Copies a native array of fixed-size values into a vector of its own.
///
/// The array's length is found by scanning for the sentinel; what lies
/// behind the sentinel is not looked at. An array that starts with its
/// sentinel gives an empty vector.
pub fn from_raw_array_full<T: Copy>(ptr_full: &NativeSequence<T>) -> (r: Vec<T>)
    ensures
        r@ == elements(ptr_full@),
{
    let mut values: Vec<T> = Vec::new();
    let mut i: usize = 0;
    while i < ptr_full.slots.len()
        invariant
            i <= ptr_full@.len(),
            values@.len() == i,
            forall|j: int| 0 <= j < i ==> ptr_full@[j] is Some,
            forall|j: int| 0 <= j < i ==> ptr_full@[j] == Some(#[trigger] values@[j]),
        ensures
            is_sentinel_index(ptr_full@, i as int),
        decreases ptr_full@.len() - i,
    {
        match ptr_full.slots[i] {
            Some(value) => {
                values.push(value);
            },
            None => {
                break ;
            },
        }
        i += 1;
    }
    proof {
        lemma_sentinel_index(ptr_full@, i as int);
        assert(values@ =~= elements(ptr_full@));
    }
    values
}

/// Turns a native array of C strings into texts, in the array's order.
///
/// The array is used up by the call. Its length is found by scanning for
/// the sentinel. An array that starts with its sentinel gives an empty
/// vector. Where a string is not UTF-8 the first such string is reported.
pub fn from_raw_cstring_array_full(ptr_full: NativeSequence<Vec<u8>>) -> (r: Result<
    Vec<String>,
    Error,
>)
    ensures
        outcome(r) == decoded_all(byte_strings(ptr_full@)),
{
    let ghost strings = byte_strings(ptr_full@);
    let mut texts: Vec<String> = Vec::new();
    let mut i: usize = 0;
    while i < ptr_full.slots.len()
        invariant
            i <= ptr_full@.len(),
            texts@.len() == i,
            strings == byte_strings(ptr_full@),
            forall|j: int| 0 <= j < i ==> ptr_full@[j] is Some,
            forall|j: int|
                0 <= j < i ==> c_string_text(ptr_full@[j]->Some_0@) == Some(#[trigger] texts@[j]@),
        ensures
            is_sentinel_index(ptr_full@, i as int),
        decreases ptr_full@.len() - i,
    {
        match &ptr_full.slots[i] {
            Some(bytes) => {
                match from_c_string(bytes.as_slice()) {
                    Ok(text) => {
                        texts.push(text);
                    },
                    Err(e) => {
                        proof {
                            lemma_sentinel_exists(ptr_full@);
                            let n = sentinel_index(ptr_full@);
                            assert(ptr_full@[i as int] == Some(*bytes));
                            assert(i < n) by {
                                if n < i {
                                    assert(ptr_full@[n] is Some);
                                }
                            }
                            assert(strings[i as int] == bytes@);
                            assert forall|j: int| 0 <= j < i implies c_string_text(
                                #[trigger] strings[j],
                            ) is Some by {
                                assert(c_string_text(ptr_full@[j]->Some_0@) == Some(texts@[j]@));
                                assert(strings[j] == ptr_full@[j]->Some_0@);
                            }
                            lemma_first_invalid(strings, i as int);
                        }
                        return Err(e);
                    },
                }
            },
            None => {
                break ;
            },
        }
        i += 1;
    }
    proof {
        lemma_sentinel_index(ptr_full@, i as int);
        assert(strings.len() == i);
        assert forall|j: int| 0 <= j < strings.len() implies c_string_text(
            #[trigger] strings[j],
        ) is Some by {
            assert(c_string_text(ptr_full@[j]->Some_0@) == Some(texts@[j]@));
        }
        assert(texts.deep_view() =~= Seq::new(
            strings.len(),
            |j: int| c_string_text(strings[j])->Some_0,
        )) by {
            assert forall|j: int| 0 <= j < i implies texts.deep_view()[j] == c_string_text(
                strings[j],
            )->Some_0 by {
                assert(c_string_text(ptr_full@[j]->Some_0@) == Some(texts@[j]@));
            }
        }
    }
    Ok(texts)
}

/// Reads a native array of C strings as texts that stay in the array's own
/// memory, in the array's order.
///
/// Every string of the array must hold text: the caller has made sure of it.
/// The array's length is found by scanning for the sentinel.
#[must_use]
pub fn null_terminated_array_to_vec<'a>(array: &'a NativeSequence<Vec<u8>>) -> (r: Vec<&'a str>)
    requires
        c_string_texts(byte_strings(array@)) is Some,
    ensures
        c_string_texts(byte_strings(array@)) == Some(r@.map_values(|text: &str| text@)),
{
    let ghost strings = byte_strings(array@);
    let mut texts: Vec<&'a str> = Vec::new();
    let mut i: usize = 0;
    proof {
        lemma_sentinel_exists(array@);
    }
    while i < array.slots.len()
        invariant
            i <= array@.len(),
            texts@.len() == i,
            strings == byte_strings(array@),
            c_string_texts(strings) is Some,
            is_sentinel_index(array@, sentinel_index(array@)),
            forall|j: int| 0 <= j < i ==> array@[j] is Some,
            forall|j: int|
                0 <= j < i ==> c_string_text(array@[j]->Some_0@) == Some(#[trigger] texts@[j]@),
        ensures
            is_sentinel_index(array@, i as int),
        decreases array@.len() - i,
    {
        match &array.slots[i] {
            Some(bytes) => {
                let n = find_nul(bytes.as_slice());
                proof {
                    let end = sentinel_index(array@);
                    assert(i < end) by {
                        if end < i {
                            assert(array@[end] is Some);
                        }
                    }
                    assert(strings[i as int] == bytes@);
                    assert(c_string_text(strings[i as int]) is Some);
                }
                match utf8_text(slice_subrange(bytes.as_slice(), 0, n)) {
                    Ok(text) => {
                        proof {
                            encode_utf8_decode_utf8(text@);
                        }
                        texts.push(text);
                    },
                    Err(_) => {
                        assert(false);
                    },
                }
            },
            None => {
                break ;
            },
        }
        i += 1;
    }
    proof {
        lemma_sentinel_index(array@, i as int);
        assert(strings.len() == i);
        assert(texts@.map_values(|text: &str| text@) =~= c_string_texts(strings)->Some_0) by {
            assert forall|j: int| 0 <= j < i implies texts@[j]@ == c_string_text(
                strings[j],
            )->Some_0 by {
                assert(c_string_text(array@[j]->Some_0@) == Some(texts@[j]@));
            }
        }
    }
    texts
}

/// An array of C strings that all hold text gives as many texts as it has
/// strings, each text at the index of its string.
pub proof fn lemma_texts_in_order(strings: Seq<Seq<u8>>, texts: Seq<Seq<char>>)
    requires
        decoded_all(strings) == Ok::<Seq<Seq<char>>, ErrorView>(texts),
    ensures
        texts.len() == strings.len(),
        forall|i: int|
            0 <= i < strings.len() ==> decoded(#[trigger] strings[i]) == Ok::<
                Seq<char>,
                ErrorView,
            >(texts[i]),
{
    assert(c_string_texts(strings) == Some(texts));
}

/// An array that starts with its sentinel holds nothing, whatever lies
/// behind the sentinel.
pub proof fn lemma_elements_of_empty<T>(slots: Seq<Option<T>>)
    requires
        slots.len() > 0,
        slots[0] is None,
    ensures
        elements(slots) == Seq::<T>::empty(),
{
    lemma_sentinel_index(slots, 0);
    assert(elements(slots) =~= Seq::<T>::empty());
}

/// Every run of slots has an index at which the scan stops.
pub proof fn lemma_sentinel_exists<T>(slots: Seq<Option<T>>)
    ensures
        is_sentinel_index(slots, sentinel_index(slots)),
    decreases slots.len(),
{
    if slots.len() == 0 {
        assert(is_sentinel_index(slots, 0));
    } else {
        let front = slots.drop_last();
        lemma_sentinel_exists(front);
        let n = sentinel_index(front);
        assert forall|i: int| 0 <= i < n implies slots[i] is Some by {
            assert(front[i] is Some);
        }
        if n < front.len() {
            assert(front[n] is None);
            assert(is_sentinel_index(slots, n));
        } else if slots.last() is Some {
            assert(is_sentinel_index(slots, slots.len() as int));
        } else {
            assert(is_sentinel_index(slots, n));
        }
    }
}

} // verus!
