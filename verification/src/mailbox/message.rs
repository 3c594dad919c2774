//! Messages: composed tag by tag, encoded into a request buffer, and, once
//! the firmware has answered, asked for their results.

use crate::mailbox::list::{lookup, result_of, NoTag, Tag, Tags, TagsHolder};
use crate::mailbox::wire::{
    same_records, END, HEADER_WORDS, MAX_BUFFER_WORDS, REQUEST, SUCCESS,
};
use vstd::prelude::*;

verus! {

/// The number of words of the buffer for the tag list `T`: two leading words,
/// the records, and the terminator.
pub open spec fn buffer_words<T: TagsHolder>() -> int {
    HEADER_WORDS + T::len_value() + 1
}

/// The request buffer of `tags`: its size in bytes, the request code, the
/// records of the tags in the order in which they were added, and the
/// terminator.
pub open spec fn request<T: TagsHolder>(tags: &T) -> Seq<u32> {
    seq![(4 * buffer_words::<T>()) as u32, REQUEST] + tags.records() + seq![END]
}

/// Whether `response` is what the firmware may leave of `request` when it
/// answers with success: a buffer of the same size that reports success and
/// still has every id, every payload size and the terminator where the
/// request has them. The code and payload words of the records are the
/// firmware's.
pub open spec fn filled(request: Seq<u32>, response: Seq<u32>) -> bool {
    &&& response.len() == request.len()
    &&& response[1] == SUCCESS
    &&& same_records(request, response, HEADER_WORDS as int)
}

/// The response did not report success; `code` is the code word it held, if
/// it held one.
#[derive(Debug, Clone, Copy)]
pub struct ProtocolError {
    pub code: Option<u32>,
}

/// The address of a buffer is not a multiple of 16, so it cannot travel in a
/// doorbell word.
#[derive(Debug, Clone, Copy)]
pub struct AlignmentViolation {
    pub address: u32,
}

/// The value to send on the property channel for the buffer at `address`: the
/// address without its four low bits, which have to be zero.
pub fn buffer_value(address: u32) -> (r: Result<u32, AlignmentViolation>)
    ensures
        address % 16 == 0 ==> r == Ok::<u32, AlignmentViolation>((address / 16) as u32),
        address % 16 != 0 ==> r == Err::<u32, AlignmentViolation>(AlignmentViolation { address }),
{
    if address % 16 == 0 {
        Ok(address / 16)
    } else {
        Err(AlignmentViolation { address })
    }
}

/// A message that is still being composed: the tags added so far.
pub struct Message<T> {
    tags: T,
}

impl<T> Message<T> {
    /// The tags of the message, the last added first.
    pub closed spec fn tags(&self) -> T {
        self.tags
    }
}

impl Message<NoTag> {
    /// A message without tags.
    pub fn new() -> (r: Self)
        ensures
            r.tags() == NoTag,
    {
        Message { tags: NoTag }
    }

    /// Adds the first tag.
    pub fn with<T: Tag>(self, tag: T) -> (r: Message<Tags<T, NoTag>>)
        ensures
            r.tags() == Tags(tag, NoTag),
    {
        Message { tags: Tags(tag, NoTag) }
    }
}

impl<O1, O2> Message<Tags<O1, O2>> {
    /// Adds a tag behind those already there.
    pub fn with<T: Tag>(self, tag: T) -> (r: Message<Tags<T, Tags<O1, O2>>>)
        ensures
            r.tags() == Tags(tag, self.tags()),
    {
        Message { tags: Tags(tag, self.tags) }
    }

    /// The request buffer to hand to the firmware, or `None` where its size
    /// in bytes does not fit its first word.
    pub fn encode(&self) -> (r: Option<Vec<u32>>)
        where O1: Tag, O2: TagsHolder
        ensures
            r is Some <==> 4 * buffer_words::<Tags<O1, O2>>() <= u32::MAX,
            r matches Some(buffer) ==> {
                &&& buffer@ == request(&self.tags())
                &&& 4 * buffer@.len() == 4 * (2 + Tags::<O1, O2>::len_value() + 1)
                &&& buffer@[0] == 4 * (2 + Tags::<O1, O2>::len_value() + 1)
                &&& buffer@[1] == REQUEST
                &&& buffer@[buffer@.len() - 1] == END
                &&& Tags::<O1, O2>::framed(buffer@)
            },
    {
        proof {
            self.tags.lemma_records();
            self.tags.lemma_framed(
                seq![(4 * buffer_words::<Tags<O1, O2>>()) as u32, REQUEST],
                seq![END],
            );
        }
        let mut buffer: Vec<u32> = Vec::new();
        buffer.push(0);
        buffer.push(REQUEST);
        self.tags.serialize(&mut buffer);
        buffer.push(END);
        if buffer.len() > MAX_BUFFER_WORDS {
            return None;
        }
        let size = 4 * (buffer.len() as u32);
        buffer.set(0, size);
        assert(buffer@ == request(&self.tags()));
        Some(buffer)
    }

    /// Takes the buffer back after the exchange with the firmware. A buffer
    /// whose code word is the success code makes the message a sent one, which
    /// can be asked for its results; any other buffer is an error and nothing
    /// is decoded from it.
    pub fn commit(self, response: Vec<u32>) -> (r: Result<
        SentMessage<Tags<O1, O2>>,
        ProtocolError,
    >)
        ensures
            match r {
                Ok(sent) => {
                    &&& response@.len() >= 2
                    &&& response@[1] == SUCCESS
                    &&& sent@ == response@
                    &&& sent.tags() == self.tags()
                },
                Err(e) => {
                    &&& !(response@.len() >= 2 && response@[1] == SUCCESS)
                    &&& e.code == (if response@.len() >= 2 {
                        Some(response@[1])
                    } else {
                        None
                    })
                },
            },
    {
        if response.len() < 2 {
            return Err(ProtocolError { code: None });
        }
        let code = response[1];
        if code != SUCCESS {
            return Err(ProtocolError { code: Some(code) });
        }
        Ok(SentMessage { tags: self.tags, buffer: response })
    }
}

/// A message that the firmware has answered with success: its tags and the
/// buffer with the answers. Nothing changes it any more.
pub struct SentMessage<T> {
    tags: T,
    buffer: Vec<u32>,
}

impl<T> View for SentMessage<T> {
    type V = Seq<u32>;

    /// The words of the answered buffer.
    closed spec fn view(&self) -> Seq<u32> {
        self.buffer@
    }
}

impl<T> SentMessage<T> {
    /// The tags of the message, the last added first.
    pub closed spec fn tags(&self) -> T {
        self.tags
    }

    /// The words of the answered buffer.
    pub fn words(&self) -> (r: &[u32])
        ensures
            r@ == self@,
    {
        self.buffer.as_slice()
    }

    /// The result of the tag `G`: the decoded payload of the first record with
    /// its id, or `None` where the scan reaches the terminator without
    /// meeting one.
    pub fn get<G: Tag>(&self) -> (r: Option<G::Res>)
        ensures
            r == result_of::<G>(self@),
    {
        lookup::<G>(self.buffer.as_slice())
    }
}

impl<T: TagsHolder> SentMessage<T> {
    /// The results of all tags, in the order in which the tags were added.
    pub fn results(&self) -> (r: T::Res)
        ensures
            r == T::results(self@),
    {
        T::deserialize(self.buffer.as_slice())
    }
}

/// Encoding a list of tags with different ids and decoding the buffer that
/// the firmware filled gives, for every tag and in the order of the request,
/// the result decoded from the tag's own record, which still has the tag's id
/// and payload size.
pub proof fn lemma_round_trip<T: TagsHolder>(tags: &T, response: Seq<u32>)
    requires
        T::distinct(),
        filled(request(tags), response),
    ensures
        T::framed(response),
        T::results(response) == T::results_in_place(response),
{
    tags.lemma_records();
    tags.lemma_framed(seq![(4 * buffer_words::<T>()) as u32, REQUEST], seq![END]);
    T::lemma_fill(request(tags), response);
    T::lemma_results(response);
}

} // verus!
