//! Tags and ordered lists of tags.

use crate::mailbox::wire::{
    find, locate, located, same_records, HEADER_WORDS, MAX_PAYLOAD_WORDS, RECORD_WORDS,
};
use vstd::prelude::*;

verus! {

/// One typed request to the firmware: its wire id, the size of its payload,
/// how its request payload is written and how its response is read.
pub trait Tag: Sized {
    /// The wire id.
    const ID: u32;

    /// The number of payload words.
    const LEN: usize;

    /// What the firmware's answer decodes to.
    type Res;

    /// The wire id, as contracts speak of it.
    spec fn id_value() -> u32;

    /// The number of payload words, as contracts speak of it.
    spec fn len_value() -> int;

    /// The payload words of the request.
    spec fn payload(&self) -> Seq<u32>;

    /// The result that the payload words of a response stand for.
    spec fn decoded(from: Seq<u32>) -> Self::Res;

    /// The constants are what the contracts say, the id is not the
    /// terminator, and the payload size in bytes fits a word.
    proof fn lemma_shape()
        ensures
            Self::ID == Self::id_value(),
            Self::LEN == Self::len_value(),
            Self::id_value() != 0,
            0 <= Self::len_value() <= MAX_PAYLOAD_WORDS,
    ;

    /// The request payload has the declared size.
    proof fn lemma_payload(&self)
        ensures
            self.payload().len() == Self::len_value(),
    ;

    /// Appends the request payload to `buffer`.
    fn serialize(&self, buffer: &mut Vec<u32>)
        ensures
            final(buffer)@ == old(buffer)@ + self.payload(),
    ;

    /// Decodes the payload words of a response.
    fn deserialize(from: &[u32]) -> (r: Self::Res)
        requires
            from@.len() == Self::len_value(),
        ensures
            r == Self::decoded(from@),
    ;
}

/// The request record of `tag`: id, payload size in bytes, a zero code word,
/// and the request payload.
pub open spec fn record<T: Tag>(tag: &T) -> Seq<u32> {
    seq![T::id_value(), (4 * T::len_value()) as u32, 0u32] + tag.payload()
}

/// The result of `T` that a response buffer holds: the decoded payload of the
/// first record with the id of `T`, or nothing where the scan finds no such
/// record or finds it with another payload size.
pub open spec fn result_of<T: Tag>(buffer: Seq<u32>) -> Option<T::Res> {
    match located(buffer, T::id_value(), T::len_value()) {
        Some(words) => Some(T::decoded(words)),
        None => None,
    }
}

/// Looks up the result of `T` in a response buffer.
pub fn lookup<T: Tag>(buffer: &[u32]) -> (r: Option<T::Res>)
    ensures
        r == result_of::<T>(buffer@),
{
    proof {
        T::lemma_shape();
    }
    match locate(buffer, T::ID, T::LEN) {
        Some(words) => Some(T::deserialize(words)),
        None => None,
    }
}

/// An ordered list of tags.
pub trait TagsHolder: Sized {
    /// The results of the tags, in the order in which the tags were added.
    type Res;

    /// The number of words that the records of the tags take: for each tag
    /// three words and its payload.
    spec fn len_value() -> int;

    /// The request records of the tags, in the order in which they were added.
    spec fn records(&self) -> Seq<u32>;

    /// Whether a tag of the list has the wire id `id`.
    spec fn has_id(id: u32) -> bool;

    /// Whether the wire ids of the tags differ from one another.
    spec fn distinct() -> bool;

    /// Whether `buffer` holds, from its third word on, one record for each tag,
    /// in order, with the id and the payload size of the tag.
    spec fn framed(buffer: Seq<u32>) -> bool;

    /// The results of the tags as a response buffer holds them, each looked up
    /// by its wire id.
    spec fn results(buffer: Seq<u32>) -> Self::Res;

    /// The results of the tags read from the records at the places where the
    /// request put them.
    spec fn results_in_place(buffer: Seq<u32>) -> Self::Res;

    /// The size is a natural number.
    proof fn lemma_len()
        ensures
            0 <= Self::len_value(),
    ;

    /// The request records take `len_value()` words.
    proof fn lemma_records(&self)
        ensures
            self.records().len() == Self::len_value(),
    ;

    /// The request records, wherever they stand behind two leading words,
    /// frame the buffer.
    proof fn lemma_framed(&self, header: Seq<u32>, rest: Seq<u32>)
        requires
            header.len() == HEADER_WORDS,
        ensures
            Self::framed(header + self.records() + rest),
    ;

    /// A buffer that keeps the ids and sizes of a framed one is framed too.
    proof fn lemma_fill(before: Seq<u32>, after: Seq<u32>)
        requires
            Self::framed(before),
            after.len() == before.len(),
            same_records(before, after, HEADER_WORDS as int),
        ensures
            Self::framed(after),
            same_records(before, after, HEADER_WORDS + Self::len_value()),
    ;

    /// A scan for an id that no tag of the list has passes all their records.
    proof fn lemma_skip(buffer: Seq<u32>, id: u32)
        requires
            Self::framed(buffer),
            !Self::has_id(id),
        ensures
            HEADER_WORDS + Self::len_value() <= buffer.len(),
            find(buffer, id, HEADER_WORDS as int) == find(
                buffer,
                id,
                HEADER_WORDS + Self::len_value(),
            ),
    ;

    /// Where the ids differ, looking the results up by id finds each at the
    /// place of its own record.
    proof fn lemma_results(buffer: Seq<u32>)
        requires
            Self::framed(buffer),
            Self::distinct(),
        ensures
            Self::results(buffer) == Self::results_in_place(buffer),
    ;

    /// Appends the request records to `buffer`.
    fn serialize(&self, buffer: &mut Vec<u32>)
        ensures
            final(buffer)@ == old(buffer)@ + self.records(),
    ;

    /// Decodes the results from a response buffer.
    fn deserialize(buffer: &[u32]) -> (r: Self::Res)
        ensures
            r == Self::results(buffer@),
    ;
}

/// The empty list.
pub struct NoTag;

impl TagsHolder for NoTag {
    type Res = ();

    open spec fn len_value() -> int {
        0
    }

    open spec fn records(&self) -> Seq<u32> {
        Seq::empty()
    }

    open spec fn has_id(id: u32) -> bool {
        false
    }

    open spec fn distinct() -> bool {
        true
    }

    open spec fn framed(buffer: Seq<u32>) -> bool {
        HEADER_WORDS <= buffer.len()
    }

    open spec fn results(buffer: Seq<u32>) -> () {
        ()
    }

    open spec fn results_in_place(buffer: Seq<u32>) -> () {
        ()
    }

    proof fn lemma_len() {
    }

    proof fn lemma_records(&self) {
    }

    proof fn lemma_framed(&self, header: Seq<u32>, rest: Seq<u32>) {
    }

    proof fn lemma_fill(before: Seq<u32>, after: Seq<u32>) {
    }

    proof fn lemma_skip(buffer: Seq<u32>, id: u32) {
    }

    proof fn lemma_results(buffer: Seq<u32>) {
    }

    fn serialize(&self, buffer: &mut Vec<u32>) {
    }

    fn deserialize(buffer: &[u32]) -> (r: ()) {
        ()
    }
}

/// The list `O` followed by the tag `T`.
pub struct Tags<T, O>(pub T, pub O);

impl<T: Tag, O: TagsHolder> TagsHolder for Tags<T, O> {
    type Res = (O::Res, Option<T::Res>);

    open spec fn len_value() -> int {
        T::len_value() + RECORD_WORDS + O::len_value()
    }

    open spec fn records(&self) -> Seq<u32> {
        self.1.records() + record(&self.0)
    }

    open spec fn has_id(id: u32) -> bool {
        O::has_id(id) || T::id_value() == id
    }

    open spec fn distinct() -> bool {
        O::distinct() && !O::has_id(T::id_value())
    }

    open spec fn framed(buffer: Seq<u32>) -> bool {
        let pos = HEADER_WORDS + O::len_value();
        &&& O::framed(buffer)
        &&& pos + RECORD_WORDS + T::len_value() <= buffer.len()
        &&& buffer[pos] == T::id_value()
        &&& buffer[pos + 1] == 4 * T::len_value()
    }

    open spec fn results(buffer: Seq<u32>) -> Self::Res {
        (O::results(buffer), result_of::<T>(buffer))
    }

    open spec fn results_in_place(buffer: Seq<u32>) -> Self::Res {
        let pos = HEADER_WORDS + O::len_value() + RECORD_WORDS;
        (O::results_in_place(buffer), Some(T::decoded(buffer.subrange(pos, pos + T::len_value()))))
    }

    proof fn lemma_len() {
        O::lemma_len();
        T::lemma_shape();
    }

    proof fn lemma_records(&self) {
        self.1.lemma_records();
        self.0.lemma_payload();
    }

    proof fn lemma_framed(&self, header: Seq<u32>, rest: Seq<u32>) {
        let buffer = header + self.records() + rest;
        self.1.lemma_records();
        self.0.lemma_payload();
        O::lemma_len();
        T::lemma_shape();
        self.1.lemma_framed(header, record(&self.0) + rest);
        assert(buffer == header + self.1.records() + (record(&self.0) + rest));
    }

    proof fn lemma_fill(before: Seq<u32>, after: Seq<u32>) {
        O::lemma_fill(before, after);
        O::lemma_len();
        T::lemma_shape();
    }

    proof fn lemma_skip(buffer: Seq<u32>, id: u32) {
        O::lemma_skip(buffer, id);
        O::lemma_len();
        T::lemma_shape();
    }

    proof fn lemma_results(buffer: Seq<u32>) {
        O::lemma_results(buffer);
        O::lemma_skip(buffer, T::id_value());
        O::lemma_len();
        T::lemma_shape();
    }

    fn serialize(&self, buffer: &mut Vec<u32>) {
        proof {
            T::lemma_shape();
        }
        self.1.serialize(buffer);
        buffer.push(T::ID);
        buffer.push(4 * (T::LEN as u32));
        buffer.push(0);
        self.0.serialize(buffer);
        assert(buffer@ == old(buffer)@ + self.records());
    }

    fn deserialize(buffer: &[u32]) -> (r: Self::Res) {
        let other = O::deserialize(buffer);
        let own = lookup::<T>(buffer);
        (other, own)
    }
}

} // verus!
