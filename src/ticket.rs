use vstd::prelude::*;

verus! {

/// A ticket's identity: the twelve bytes of a store object id.
#[derive(Clone, Copy, Debug)]
pub struct TicketId {
    pub bytes: [u8; 12],
}

impl View for TicketId {
    type V = Seq<u8>;

    open spec fn view(&self) -> Seq<u8> {
        self.bytes@
    }
}

/// A ticket. `channel_id` is absent until the ticket's channel exists.
#[derive(Debug)]
pub struct Ticket {
    pub id: Option<TicketId>,
    pub title: String,
    pub content: String,
    pub channel_id: Option<u64>,
}

pub open spec fn is_hex_digit(c: char) -> bool {
    ('0' as u32 <= c as u32 && c as u32 <= '9' as u32) || ('a' as u32 <= c as u32 && c as u32
        <= 'f' as u32) || ('A' as u32 <= c as u32 && c as u32 <= 'F' as u32)
}

pub open spec fn hex_value(c: char) -> int {
    if '0' as u32 <= c as u32 && c as u32 <= '9' as u32 {
        c as u32 - '0' as u32
    } else if 'a' as u32 <= c as u32 && c as u32 <= 'f' as u32 {
        c as u32 - 'a' as u32 + 10
    } else {
        c as u32 - 'A' as u32 + 10
    }
}

/// The text form of a ticket id: 24 hexadecimal digits, either case.
pub open spec fn is_id_text(s: Seq<char>) -> bool {
    s.len() == 24 && forall|i: int| 0 <= i < 24 ==> is_hex_digit(#[trigger] s[i])
}

/// The bytes that a valid id text denotes, two digits per byte, high digit first.
pub open spec fn id_text_bytes(s: Seq<char>) -> Seq<u8> {
    Seq::new(12, |i: int| (hex_value(s[2 * i]) * 16 + hex_value(s[2 * i + 1])) as u8)
}

/// Relies on bson's `ObjectId::parse_str`, which decodes the text with `hex::decode`
/// (digits `0-9`, `a-f`, `A-F`) and accepts exactly twelve bytes.
#[verifier::external_body]
fn parse_object_id(s: &str) -> (r: Option<[u8; 12]>)
    ensures
        r is Some <==> is_id_text(s@),
        r is Some ==> r->0@ == id_text_bytes(s@),
{
    bson::oid::ObjectId::parse_str(s).ok().map(|o| o.bytes())
}

/// Relies on bson's `ObjectId::new`: a fresh id from the clock, the process and a
/// counter. Nothing is promised of its value.
#[verifier::external_body]
fn fresh_object_id() -> (r: [u8; 12]) {
    bson::oid::ObjectId::new().bytes()
}

impl TicketId {
    /// Reads an id from its 24-digit hexadecimal text.
    pub fn parse(s: &str) -> (r: Option<TicketId>)
        ensures
            r is Some <==> is_id_text(s@),
            r is Some ==> r->0@ == id_text_bytes(s@),
    {
        match parse_object_id(s) {
            Some(bytes) => Some(TicketId { bytes }),
            None => None,
        }
    }

    /// Whether two ids are the same identity.
    pub fn same(&self, other: &TicketId) -> (r: bool)
        ensures
            r == (self@ == other@),
    {
        let mut i: usize = 0;
        while i < 12
            invariant
                0 <= i <= 12,
                self@.len() == 12,
                other@.len() == 12,
                forall|j: int| 0 <= j < i ==> self@[j] == other@[j],
            decreases 12 - i,
        {
            if self.bytes[i] != other.bytes[i] {
                assert(self@[i as int] != other@[i as int]);
                return false;
            }
            i = i + 1;
        }
        assert(self@ =~= other@);
        true
    }
}

impl Ticket {
    /// A new ticket with no identity and no channel yet.
    pub fn new(title: String, content: String) -> (r: Ticket)
        ensures
            r.id is None,
            r.title == title,
            r.content == content,
            r.channel_id is None,
    {
        Ticket { id: None, title, content, channel_id: None }
    }

    /// The ticket with an identity: its own if it has one, a fresh one otherwise.
    pub fn with_id(self) -> (r: Ticket)
        ensures
            r.id is Some,
            self.id is Some ==> r.id == self.id,
            r.title == self.title,
            r.content == self.content,
            r.channel_id == self.channel_id,
    {
        match self.id {
            Some(_) => self,
            None => Ticket {
                id: Some(TicketId { bytes: fresh_object_id() }),
                title: self.title,
                content: self.content,
                channel_id: self.channel_id,
            },
        }
    }
}

/// The tickets among stored documents, in order: a document that could not be
/// read as a ticket (`None`) is skipped and does not end the listing.
pub open spec fn readable(docs: Seq<Option<Ticket>>) -> Seq<Ticket>
    decreases docs.len(),
{
    if docs.len() == 0 {
        Seq::empty()
    } else {
        let rest = readable(docs.drop_first());
        match docs[0] {
            Some(t) => seq![t] + rest,
            None => rest,
        }
    }
}

/// Lists the tickets among stored documents, skipping those that could not be read.
pub fn list_readable(docs: Vec<Option<Ticket>>) -> (r: Vec<Ticket>)
    ensures
        r@ == readable(docs@),
{
    let ghost all = docs@;
    let mut docs = docs;
    let mut out: Vec<Ticket> = Vec::new();
    while docs.len() > 0
        invariant
            out@ + readable(docs@) == readable(all),
        decreases docs.len(),
    {
        let ghost before = docs@;
        let d = docs.remove(0);
        assert(docs@ =~= before.drop_first());
        match d {
            Some(t) => {
                let ghost o = out@;
                out.push(t);
                assert(out@ + readable(docs@) =~= o + (seq![t] + readable(docs@)));
            },
            None => {},
        }
    }
    assert(out@ + readable(docs@) =~= out@);
    out
}

} // verus!
