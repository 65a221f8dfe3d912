use vstd::prelude::*;

verus! {

pub type Type = u8;
pub type Length = u8;

/// Why a record could not be read.
#[derive(Debug, Clone, Copy, PartialEq, Eq, Structural)]
pub enum TlvError {
    /// The input ends before the two header bytes.
    MissingHeader,
    /// The input ends before the value that the header announces.
    TruncatedValue,
}

/// The record framing: the type byte, the length byte, then the value bytes.
pub open spec fn framed(t: u8, l: u8, v: Seq<u8>) -> Seq<u8> {
    seq![t, l] + v
}

/// Frames a record: `t`, `l`, then the bytes of `v`.
pub fn encode(t: Type, l: Length, v: &[u8]) -> (r: Vec<u8>)
    ensures
        r@ == framed(t, l, v@),
{
    let mut r: Vec<u8> = Vec::new();
    r.push(t);
    r.push(l);
    let mut i: usize = 0;
    while i < v.len()
        invariant
            i <= v@.len(),
            r@ == seq![t, l] + v@.subrange(0, i as int),
        decreases v@.len() - i,
    {
        r.push(v[i]);
        i += 1;
        assert(r@ =~= seq![t, l] + v@.subrange(0, i as int));
    }
    assert(v@.subrange(0, v@.len() as int) =~= v@);
    r
}

/// Reads the record at the start of `bytes`: its type, its length, and as many value bytes as
/// the length says.
pub fn decode_one(bytes: &[u8]) -> (r: Result<(Type, Length, Vec<u8>), TlvError>)
    ensures
        bytes@.len() < 2 <==> r == Err::<(Type, Length, Vec<u8>), TlvError>(TlvError::MissingHeader),
        bytes@.len() >= 2 && bytes@.len() < 2 + bytes@[1] <==> r == Err::<(Type, Length, Vec<u8>), TlvError>(
            TlvError::TruncatedValue,
        ),
        r matches Ok((t, l, v)) ==> t == bytes@[0] && l == bytes@[1] && v@ == bytes@.subrange(2, 2 + l),
{
    if bytes.len() < 2 {
        return Err(TlvError::MissingHeader);
    }
    let t = bytes[0];
    let l = bytes[1];
    if bytes.len() - 2 < l as usize {
        return Err(TlvError::TruncatedValue);
    }
    let mut v: Vec<u8> = Vec::new();
    let mut i: usize = 0;
    while i < l as usize
        invariant
            i <= l,
            2 + l <= bytes@.len(),
            l == bytes@[1],
            v@ == bytes@.subrange(2, 2 + i),
        decreases l - i,
    {
        v.push(bytes[2 + i]);
        i += 1;
        assert(v@ =~= bytes@.subrange(2, 2 + i));
    }
    Ok((t, l, v))
}

/// A framed record reads back as the same type, length and value.
pub proof fn lemma_decode_framed(t: u8, v: Seq<u8>)
    requires
        v.len() <= 255,
    ensures
        framed(t, v.len() as u8, v).len() == 2 + v.len(),
        framed(t, v.len() as u8, v)[0] == t,
        framed(t, v.len() as u8, v)[1] == v.len(),
        framed(t, v.len() as u8, v).subrange(2, 2 + v.len() as int) == v,
{
    assert(framed(t, v.len() as u8, v).subrange(2, 2 + v.len() as int) =~= v);
}

} // verus!
