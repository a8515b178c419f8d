use vstd::prelude::*;
use crate::error::VerifyError;

verus! {

/// The `N` bytes of `data` that begin at `start`.
pub fn copy_bytes<const N: usize>(data: &[u8], start: usize) -> (out: [u8; N])
    requires
        start + N <= data@.len(),
    ensures
        out@ == data@.subrange(start as int, start + N),
{
    let mut out = [0u8; N];
    let mut i: usize = 0;
    while i < N
        invariant
            i <= N,
            start + N <= data.len(),
            forall|j: int| 0 <= j < i ==> out@[j] == data@[start + j],
        decreases N - i,
    {
        out[i] = data[start + i];
        i += 1;
    }
    assert(out@ =~= data@.subrange(start as int, start + N));
    out
}

/// A Groth16 proof as three encoded curve points.
#[derive(Clone, Debug, PartialEq, Eq)]
pub struct NoirProof {
    pub proof_a: [u8; 64],
    pub proof_b: [u8; 128],
    pub proof_c: [u8; 64],
}

/// The bytes of a proof.
pub struct ProofFields {
    pub a: Seq<u8>,
    pub b: Seq<u8>,
    pub c: Seq<u8>,
}

impl View for NoirProof {
    type V = ProofFields;

    open spec fn view(&self) -> ProofFields {
        ProofFields { a: self.proof_a@, b: self.proof_b@, c: self.proof_c@ }
    }
}

/// The proof that the first 256 bytes of `data` encode, if there are that many.
pub open spec fn proof_fields(data: Seq<u8>) -> Option<ProofFields> {
    if data.len() < 256 {
        None
    } else {
        Some(
            ProofFields {
                a: data.subrange(0, 64),
                b: data.subrange(64, 192),
                c: data.subrange(192, 256),
            },
        )
    }
}

/// Reads the proof from the head of a request.
pub fn parse_proof(data: &[u8]) -> (r: Result<NoirProof, VerifyError>)
    ensures
        r is Ok <==> data@.len() >= 256,
        r matches Ok(p) ==> proof_fields(data@) == Some(p@),
        r matches Err(e) ==> e == VerifyError::MalformedInput,
{
    if data.len() < 256 {
        return Err(VerifyError::MalformedInput);
    }
    let proof_a: [u8; 64] = copy_bytes(data, 0);
    let proof_b: [u8; 128] = copy_bytes(data, 64);
    let proof_c: [u8; 64] = copy_bytes(data, 192);
    Ok(NoirProof { proof_a, proof_b, proof_c })
}

/// `data` cut into consecutive rows of `width` bytes; bytes after the last
/// whole row belong to none.
pub open spec fn chunks_of(data: Seq<u8>, width: nat) -> Seq<Seq<u8>>
    recommends
        width > 0,
{
    Seq::new(data.len() / width, |i: int| data.subrange(i * width, (i + 1) * width))
}

/// The byte rows held by a vector of fixed-width arrays.
pub open spec fn rows_of<const N: usize>(v: Seq<[u8; N]>) -> Seq<Seq<u8>> {
    Seq::new(v.len(), |i: int| v[i]@)
}

/// Cuts `data` from `start` to its end into arrays of `N` bytes, and fails
/// when the last one would be short.
pub fn split_rows<const N: usize>(data: &[u8], start: usize) -> (r: Result<
    Vec<[u8; N]>,
    VerifyError,
>)
    requires
        N > 0,
        start <= data@.len(),
    ensures
        r is Ok <==> (data@.len() - start) % (N as int) == 0,
        r matches Ok(v) ==> rows_of(v@) == chunks_of(
            data@.subrange(start as int, data@.len() as int),
            N as nat,
        ),
        r matches Err(e) ==> e == VerifyError::MalformedInput,
{
    let len = data.len();
    if (len - start) % N != 0 {
        return Err(VerifyError::MalformedInput);
    }
    let count = (len - start) / N;
    let ghost tail = data@.subrange(start as int, len as int);
    let mut out: Vec<[u8; N]> = Vec::new();
    let mut i: usize = 0;
    let mut pos: usize = start;
    while i < count
        invariant
            N > 0,
            len == data.len(),
            start <= len,
            count == (len - start) / (N as int),
            (len - start) % (N as int) == 0,
            tail == data@.subrange(start as int, len as int),
            i <= count,
            pos == start + i * N,
            out@.len() == i,
            forall|j: int| 0 <= j < i ==> (#[trigger] out@[j])@ == tail.subrange(j * N, (j + 1) * N),
        decreases count - i,
    {
        proof {
            lemma_row_bounds(i as int, count as int, N as int, len - start);
        }
        let row: [u8; N] = copy_bytes(data, pos);
        assert(row@ =~= tail.subrange(i * N, (i + 1) * N));
        out.push(row);
        i += 1;
        pos += N;
    }
    assert(rows_of(out@) =~= chunks_of(tail, N as nat));
    Ok(out)
}

/// Row `i` of `count` rows of `width` bytes lies inside `count * width`
/// bytes, and the next row starts where it ends.
proof fn lemma_row_bounds(i: int, count: int, width: int, total: int)
    by (nonlinear_arith)
    requires
        0 <= i < count,
        width > 0,
        total >= 0,
        count == total / width,
        total % width == 0,
    ensures
        0 <= i * width,
        (i + 1) * width == i * width + width,
        (i + 1) * width <= total,
{
}

/// The public inputs of a request, in wire order: scalar `i` weighs key
/// point `i + 1`.
#[derive(Clone, Debug, PartialEq, Eq)]
pub struct PublicInputs(pub Vec<[u8; 32]>);

impl View for PublicInputs {
    type V = Seq<Seq<u8>>;

    open spec fn view(&self) -> Seq<Seq<u8>> {
        rows_of(self.0@)
    }
}

/// The scalars that follow the proof: every 32-byte row up to the end of the
/// buffer, provided the buffer ends on a row boundary.
pub open spec fn public_input_rows(data: Seq<u8>) -> Option<Seq<Seq<u8>>> {
    if data.len() < 256 || (data.len() - 256) % 32 != 0 {
        None
    } else {
        Some(chunks_of(data.subrange(256, data.len() as int), 32))
    }
}

/// Reads the public inputs that follow the proof.
pub fn parse_public_inputs(data: &[u8]) -> (r: Result<PublicInputs, VerifyError>)
    ensures
        r is Ok <==> data@.len() >= 256 && (data@.len() - 256) % 32 == 0,
        r matches Ok(inputs) ==> public_input_rows(data@) == Some(inputs@),
        r matches Err(e) ==> e == VerifyError::MalformedInput,
{
    if data.len() < 256 {
        return Err(VerifyError::MalformedInput);
    }
    match split_rows::<32>(data, 256) {
        Ok(rows) => Ok(PublicInputs(rows)),
        Err(e) => Err(e),
    }
}

/// A Groth16 verification key. `vk_ic[0]` is the constant term and
/// `vk_ic[i + 1]` the coefficient point of public input `i`.
#[derive(Clone, Debug, PartialEq, Eq)]
pub struct VerificationKey {
    pub vk_alpha_g1: [u8; 64],
    pub vk_beta_g2: [u8; 128],
    pub vk_gamma_g2: [u8; 128],
    pub vk_delta_g2: [u8; 128],
    pub vk_ic: Vec<[u8; 64]>,
}

/// The bytes of a verification key.
pub struct KeyFields {
    pub alpha_g1: Seq<u8>,
    pub beta_g2: Seq<u8>,
    pub gamma_g2: Seq<u8>,
    pub delta_g2: Seq<u8>,
    pub ic: Seq<Seq<u8>>,
}

impl View for VerificationKey {
    type V = KeyFields;

    open spec fn view(&self) -> KeyFields {
        KeyFields {
            alpha_g1: self.vk_alpha_g1@,
            beta_g2: self.vk_beta_g2@,
            gamma_g2: self.vk_gamma_g2@,
            delta_g2: self.vk_delta_g2@,
            ic: rows_of(self.vk_ic@),
        }
    }
}

/// Where the key region begins in a buffer of `len >= 256` bytes: after the
/// last whole 32-byte row that follows the proof.
pub open spec fn key_start(len: nat) -> int {
    256 + (len - 256) / 32 * 32
}

/// The key whose four fixed points begin at `start` and whose `ic` points
/// fill the rest of `data` in 64-byte rows.
pub open spec fn key_fields_at(data: Seq<u8>, start: int) -> Option<KeyFields> {
    if start < 0 || data.len() < start + 448 || (data.len() - start - 448) % 64 != 0 {
        None
    } else {
        Some(
            KeyFields {
                alpha_g1: data.subrange(start, start + 64),
                beta_g2: data.subrange(start + 64, start + 192),
                gamma_g2: data.subrange(start + 192, start + 320),
                delta_g2: data.subrange(start + 320, start + 448),
                ic: chunks_of(data.subrange(start + 448, data.len() as int), 64),
            },
        )
    }
}

/// The key of a request: the one at `key_start`, if the buffer holds a proof.
pub open spec fn key_fields(data: Seq<u8>) -> Option<KeyFields> {
    if data.len() < 256 {
        None
    } else {
        key_fields_at(data, key_start(data.len()))
    }
}

/// Reads a verification key whose fixed points begin at byte `start`.
pub fn parse_verification_key_at(data: &[u8], start: usize) -> (r: Result<
    VerificationKey,
    VerifyError,
>)
    ensures
        r is Ok <==> key_fields_at(data@, start as int) is Some,
        r matches Ok(vk) ==> key_fields_at(data@, start as int) == Some(vk@),
        r matches Err(e) ==> e == VerifyError::MalformedInput,
{
    let len = data.len();
    if start > len || len - start < 448 {
        return Err(VerifyError::MalformedInput);
    }
    let vk_alpha_g1: [u8; 64] = copy_bytes(data, start);
    let vk_beta_g2: [u8; 128] = copy_bytes(data, start + 64);
    let vk_gamma_g2: [u8; 128] = copy_bytes(data, start + 192);
    let vk_delta_g2: [u8; 128] = copy_bytes(data, start + 320);
    match split_rows::<64>(data, start + 448) {
        Ok(vk_ic) => Ok(VerificationKey { vk_alpha_g1, vk_beta_g2, vk_gamma_g2, vk_delta_g2, vk_ic }),
        Err(e) => Err(e),
    }
}

/// Reads the verification key of a request.
pub fn parse_verification_key(data: &[u8]) -> (r: Result<VerificationKey, VerifyError>)
    ensures
        r is Ok <==> key_fields(data@) is Some,
        r matches Ok(vk) ==> key_fields(data@) == Some(vk@),
        r matches Err(e) ==> e == VerifyError::MalformedInput,
{
    let len = data.len();
    if len < 256 {
        return Err(VerifyError::MalformedInput);
    }
    let start = 256 + (len - 256) / 32 * 32;
    parse_verification_key_at(data, start)
}

/// The key region begins less than 32 bytes before the end of the buffer,
/// which leaves no room for the 448 bytes of fixed points: no buffer holds a
/// key at the offset derived from its length.
pub proof fn lemma_key_region_too_short(data: Seq<u8>)
    ensures
        data.len() >= 256 ==> data.len() < key_start(data.len()) + 32,
        key_fields(data) is None,
{
}

/// A buffer that does not end on a 32-byte row after the proof has no public
/// inputs, and a key region whose `ic` part does not end on a 64-byte row is
/// no key.
pub proof fn lemma_misaligned_regions_rejected(data: Seq<u8>, start: int)
    ensures
        data.len() >= 256 && (data.len() - 256) % 32 != 0 ==> public_input_rows(data) is None,
        start >= 0 && data.len() >= start + 448 && (data.len() - start - 448) % 64 != 0
            ==> key_fields_at(
            data,
            start,
        ) is None,
{
}

} // verus!
