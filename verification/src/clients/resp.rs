use vstd::prelude::*;

verus! {

/// A reply in the RESP protocol, as the parser hands it over.
pub enum Response {
    /// `+...`: a line of text.
    SimpleString(Vec<u8>),
    /// `-...`: an error line.
    Error(Vec<u8>),
    /// `:...`: a signed integer.
    Integer(i64),
    /// `$...`: a byte string, `None` for the null bulk string.
    BulkString(Option<Vec<u8>>),
    /// `*...`: an array of replies, `None` for the null array.
    Array(Option<Vec<Response>>),
}

impl Response {
    /// The error reply with the given message.
    pub fn error(msg: &str) -> (r: Response)
        ensures
            r matches Response::Error(m) && m@ == vstd::utf8::encode_utf8(msg@),
    {
        let b = msg.as_bytes();
        let mut v: Vec<u8> = Vec::new();
        let mut i: usize = 0;
        while i < b.len()
            invariant
                i <= b@.len(),
                b@ == vstd::utf8::encode_utf8(msg@),
                v@ == b@.subrange(0, i as int),
            decreases b@.len() - i,
        {
            v.push(b[i]);
            i = i + 1;
        }
        assert(v@ =~= b@);
        Response::Error(v)
    }
}

/// The text `OK`.
pub open spec fn ok_text() -> Seq<u8> {
    seq![0x4fu8, 0x4bu8]
}

/// The text `PONG`.
pub open spec fn pong_text() -> Seq<u8> {
    seq![0x50u8, 0x4fu8, 0x4eu8, 0x47u8]
}

/// Whether a byte string is `OK`.
pub fn is_ok_text(s: &Vec<u8>) -> (r: bool)
    ensures
        r == (s@ == ok_text()),
{
    let r = s.len() == 2 && s[0] == 0x4fu8 && s[1] == 0x4bu8;
    proof {
        if r {
            assert(s@ =~= ok_text());
        }
    }
    r
}

/// Whether a byte string is `PONG`.
pub fn is_pong_text(s: &Vec<u8>) -> (r: bool)
    ensures
        r == (s@ == pong_text()),
{
    let r = s.len() == 4 && s[0] == 0x50u8 && s[1] == 0x4fu8 && s[2] == 0x4eu8 && s[3] == 0x47u8;
    proof {
        if r {
            assert(s@ =~= pong_text());
        }
    }
    r
}

/// What a read found.
#[derive(Clone, Copy, Debug, PartialEq, Eq, Structural)]
pub enum GetOutcome {
    Hit,
    Miss,
}

/// What a write did.
#[derive(Clone, Copy, Debug, PartialEq, Eq, Structural)]
pub enum SetOutcome {
    Stored,
    NotStored,
}

/// What a removal did.
#[derive(Clone, Copy, Debug, PartialEq, Eq, Structural)]
pub enum DeleteOutcome {
    Deleted,
    NotFound,
}

} // verus!
