use crate::account::MfaFactor;
use crate::text::lemma_utf8_injective;
use vstd::prelude::*;
use vstd::utf8::encode_utf8;

verus! {

/// The first byte of every envelope.
pub const MFA_ENVELOPE_VERSION: u8 = 1;

/// The length of the nonce in an envelope.
pub const MFA_NONCE_BYTES: usize = 12;

/// The longest plaintext that the cipher takes: one keystream block is kept for the
/// authentication key, and one is not used.
pub const MAX_PLAINTEXT_BYTES: u64 = 274877906816;

/// What ChaCha20-Poly1305 makes of a message: the ciphertext followed by the tag.
pub uninterp spec fn chacha_sealed(
    key: Seq<u8>,
    nonce: Seq<u8>,
    aad: Seq<u8>,
    message: Seq<u8>,
) -> Seq<u8>;

/// What ChaCha20-Poly1305 recovers from a ciphertext, or nothing where the tag does not fit.
pub uninterp spec fn chacha_opened(
    key: Seq<u8>,
    nonce: Seq<u8>,
    aad: Seq<u8>,
    sealed: Seq<u8>,
) -> Option<Seq<u8>>;

/// The error of an authenticated cipher, which says nothing of its cause.
#[verifier::external_type_specification]
#[verifier::external_body]
pub struct ExAeadError(chacha20poly1305::Error);

/// Calls `encrypt` of `chacha20poly1305::ChaCha20Poly1305`. Claimed of it: that it succeeds on
/// every message within the keystream, that the result is a function of the key, the nonce, the
/// associated data and the message, that it is longer than the message by the tag of 16 bytes,
/// and that `decrypt` under the same key, nonce and associated data gives the message back.
#[verifier::external_body]
fn chacha_seal(key: &[u8; 32], nonce: &[u8; 12], aad: &[u8], message: &[u8]) -> (result: Result<
    Vec<u8>,
    chacha20poly1305::Error,
>)
    requires
        message@.len() <= MAX_PLAINTEXT_BYTES,
    ensures
        result is Ok,
        result->Ok_0@ == chacha_sealed(key@, nonce@, aad@, message@),
        result->Ok_0@.len() == message@.len() + 16,
        chacha_opened(key@, nonce@, aad@, result->Ok_0@) == Some(message@),
{
    let cipher = <chacha20poly1305::ChaCha20Poly1305 as chacha20poly1305::KeyInit>::new(key.into());
    let payload = chacha20poly1305::aead::Payload { msg: message, aad };
    chacha20poly1305::aead::Aead::encrypt(
        &cipher,
        chacha20poly1305::Nonce::from_slice(nonce),
        payload,
    )
}

/// Calls `decrypt` of `chacha20poly1305::ChaCha20Poly1305`. Claimed of it: that the result is a
/// function of the key, the nonce, the associated data and the ciphertext.
#[verifier::external_body]
fn chacha_open(key: &[u8; 32], nonce: &[u8; 12], aad: &[u8], sealed: &[u8]) -> (result: Result<
    Vec<u8>,
    chacha20poly1305::Error,
>)
    requires
        sealed@.len() <= MAX_PLAINTEXT_BYTES + 16,
    ensures
        result is Ok <==> chacha_opened(key@, nonce@, aad@, sealed@) is Some,
        result is Ok ==> Some(result->Ok_0@) == chacha_opened(key@, nonce@, aad@, sealed@),
{
    let cipher = <chacha20poly1305::ChaCha20Poly1305 as chacha20poly1305::KeyInit>::new(key.into());
    let payload = chacha20poly1305::aead::Payload { msg: sealed, aad };
    chacha20poly1305::aead::Aead::decrypt(
        &cipher,
        chacha20poly1305::Nonce::from_slice(nonce),
        payload,
    )
}

/// Fills a nonce with `fill_bytes` of `rand::rng()`. Nothing is claimed of the bytes.
#[verifier::external_body]
fn random_nonce() -> (nonce: [u8; 12]) {
    let mut nonce = [0u8; 12];
    rand::RngCore::fill_bytes(&mut rand::rng(), &mut nonce);
    nonce
}

/// The bytes of a length, low byte first.
pub open spec fn length_bytes(length: nat) -> Seq<u8> {
    Seq::new(8, |i: int| byte_of_length(length, i))
}

/// One byte of a length.
pub open spec fn byte_of_length(length: nat, at: int) -> u8 {
    ((length as u64) >> ((8 * at) as u64) & 0xff) as u8
}

/// A byte string behind its length.
pub open spec fn framed(bytes: Seq<u8>) -> Seq<u8> {
    length_bytes(bytes.len()) + bytes
}

/// The names and values of fields, each framed by its length.
pub open spec fn framed_fields(fields: Seq<(Seq<u8>, Seq<u8>)>) -> Seq<u8>
    decreases fields.len(),
{
    if fields.len() == 0 {
        Seq::empty()
    } else {
        framed(fields[0].0) + framed(fields[0].1) + framed_fields(fields.drop_first())
    }
}

/// A domain and the fields of a record, each name and each value framed by its length.
pub open spec fn canonical_bytes(domain: Seq<u8>, fields: Seq<(Seq<u8>, Seq<u8>)>) -> Seq<u8> {
    framed(domain) + framed_fields(fields)
}

proof fn lemma_framed_fields_push(fields: Seq<(Seq<u8>, Seq<u8>)>, field: (Seq<u8>, Seq<u8>))
    ensures
        framed_fields(fields.push(field)) == framed_fields(fields) + framed(field.0) + framed(
            field.1,
        ),
    decreases fields.len(),
{
    let longer = fields.push(field);
    if fields.len() == 0 {
        assert(longer[0] == field);
        assert(framed_fields(longer.drop_first()) =~= Seq::<u8>::empty());
        assert(framed_fields(longer) =~= framed(field.0) + framed(field.1));
        assert(framed_fields(fields) + framed(field.0) + framed(field.1) =~= framed(field.0)
            + framed(field.1));
    } else {
        lemma_framed_fields_push(fields.drop_first(), field);
        assert(longer.drop_first() =~= fields.drop_first().push(field));
        assert(framed_fields(longer) =~= framed_fields(fields) + framed(field.0) + framed(field.1));
    }
}

/// Whether every name and value of a record has a length that a frame can hold.
pub open spec fn frames_hold(domain: Seq<u8>, fields: Seq<(Seq<u8>, Seq<u8>)>) -> bool {
    &&& domain.len() <= u64::MAX
    &&& forall|i: int|
        0 <= i < fields.len() ==> (#[trigger] fields[i]).0.len() <= u64::MAX && fields[i].1.len()
            <= u64::MAX
}

proof fn lemma_length_bytes_injective(a: nat, b: nat)
    requires
        a <= u64::MAX,
        b <= u64::MAX,
        length_bytes(a) == length_bytes(b),
    ensures
        a == b,
{
    let x = a as u64;
    let y = b as u64;
    assert forall|i: int| 0 <= i < 8 implies byte_of_length(a, i) == byte_of_length(b, i) by {
        assert(length_bytes(a)[i] == byte_of_length(a, i));
        assert(length_bytes(b)[i] == byte_of_length(b, i));
    }
    assert(byte_of_length(a, 0) == byte_of_length(b, 0));
    assert(byte_of_length(a, 1) == byte_of_length(b, 1));
    assert(byte_of_length(a, 2) == byte_of_length(b, 2));
    assert(byte_of_length(a, 3) == byte_of_length(b, 3));
    assert(byte_of_length(a, 4) == byte_of_length(b, 4));
    assert(byte_of_length(a, 5) == byte_of_length(b, 5));
    assert(byte_of_length(a, 6) == byte_of_length(b, 6));
    assert(byte_of_length(a, 7) == byte_of_length(b, 7));
    assert(x == y) by (bit_vector)
        requires
            ((x >> 0u64) & 0xff) as u8 == ((y >> 0u64) & 0xff) as u8,
            ((x >> 8u64) & 0xff) as u8 == ((y >> 8u64) & 0xff) as u8,
            ((x >> 16u64) & 0xff) as u8 == ((y >> 16u64) & 0xff) as u8,
            ((x >> 24u64) & 0xff) as u8 == ((y >> 24u64) & 0xff) as u8,
            ((x >> 32u64) & 0xff) as u8 == ((y >> 32u64) & 0xff) as u8,
            ((x >> 40u64) & 0xff) as u8 == ((y >> 40u64) & 0xff) as u8,
            ((x >> 48u64) & 0xff) as u8 == ((y >> 48u64) & 0xff) as u8,
            ((x >> 56u64) & 0xff) as u8 == ((y >> 56u64) & 0xff) as u8,
    ;
}

proof fn lemma_frame_splits(a: Seq<u8>, rest_a: Seq<u8>, b: Seq<u8>, rest_b: Seq<u8>)
    requires
        a.len() <= u64::MAX,
        b.len() <= u64::MAX,
        framed(a) + rest_a == framed(b) + rest_b,
    ensures
        a == b,
        rest_a == rest_b,
{
    let left = framed(a) + rest_a;
    let right = framed(b) + rest_b;
    assert(length_bytes(a.len()) =~= left.subrange(0, 8));
    assert(length_bytes(b.len()) =~= right.subrange(0, 8));
    lemma_length_bytes_injective(a.len(), b.len());
    assert(a =~= left.subrange(8, 8 + a.len() as int));
    assert(b =~= right.subrange(8, 8 + b.len() as int));
    assert(rest_a =~= left.subrange(8 + a.len() as int, left.len() as int));
    assert(rest_b =~= right.subrange(8 + b.len() as int, right.len() as int));
}

proof fn lemma_framed_fields_injective(
    a: Seq<(Seq<u8>, Seq<u8>)>,
    b: Seq<(Seq<u8>, Seq<u8>)>,
)
    requires
        frames_hold(Seq::empty(), a),
        frames_hold(Seq::empty(), b),
        framed_fields(a) == framed_fields(b),
    ensures
        a == b,
    decreases a.len(),
{
    if a.len() == 0 || b.len() == 0 {
        assert(a =~= b);
    } else {
        let tail_a = framed_fields(a.drop_first());
        let tail_b = framed_fields(b.drop_first());
        assert(framed_fields(a) =~= framed(a[0].0) + (framed(a[0].1) + tail_a));
        assert(framed_fields(b) =~= framed(b[0].0) + (framed(b[0].1) + tail_b));
        lemma_frame_splits(a[0].0, framed(a[0].1) + tail_a, b[0].0, framed(b[0].1) + tail_b);
        lemma_frame_splits(a[0].1, tail_a, b[0].1, tail_b);
        assert forall|i: int| 0 <= i < a.drop_first().len() implies (
        #[trigger] a.drop_first()[i]).0.len() <= u64::MAX && a.drop_first()[i].1.len()
            <= u64::MAX by {
            assert(a.drop_first()[i] == a[i + 1]);
        }
        assert forall|i: int| 0 <= i < b.drop_first().len() implies (
        #[trigger] b.drop_first()[i]).0.len() <= u64::MAX && b.drop_first()[i].1.len()
            <= u64::MAX by {
            assert(b.drop_first()[i] == b[i + 1]);
        }
        lemma_framed_fields_injective(a.drop_first(), b.drop_first());
        assert(a =~= seq![a[0]] + a.drop_first());
        assert(b =~= seq![b[0]] + b.drop_first());
    }
}

/// Records with the same canonical bytes have the same domain and the same fields.
pub proof fn canonical_bytes_are_unique(
    domain_a: Seq<u8>,
    fields_a: Seq<(Seq<u8>, Seq<u8>)>,
    domain_b: Seq<u8>,
    fields_b: Seq<(Seq<u8>, Seq<u8>)>,
)
    requires
        frames_hold(domain_a, fields_a),
        frames_hold(domain_b, fields_b),
        canonical_bytes(domain_a, fields_a) == canonical_bytes(domain_b, fields_b),
    ensures
        domain_a == domain_b,
        fields_a == fields_b,
{
    lemma_frame_splits(domain_a, framed_fields(fields_a), domain_b, framed_fields(fields_b));
    lemma_framed_fields_injective(fields_a, fields_b);
}

fn push_length(output: &mut Vec<u8>, length: usize)
    ensures
        final(output)@ == old(output)@ + length_bytes(length as nat),
{
    let ghost before = output@;
    let wide: u64 = length as u64;
    let mut i: u64 = 0;
    while i < 8
        invariant
            i <= 8,
            wide == length,
            output@ == before + length_bytes(length as nat).take(i as int),
        decreases 8 - i,
    {
        let byte: u8 = ((wide >> (8 * i)) & 0xff) as u8;
        output.push(byte);
        assert(byte == byte_of_length(length as nat, i as int));
        i = i + 1;
        assert(output@ =~= before + length_bytes(length as nat).take(i as int));
    }
    assert(length_bytes(length as nat).take(8) =~= length_bytes(length as nat));
}

fn push_bytes(output: &mut Vec<u8>, bytes: &[u8])
    ensures
        final(output)@ == old(output)@ + bytes@,
{
    let ghost before = output@;
    output.extend_from_slice(bytes);
    assert(output@ =~= before + bytes@);
}

fn push_framed(output: &mut Vec<u8>, bytes: &[u8])
    ensures
        final(output)@ == old(output)@ + framed(bytes@),
{
    let ghost before = output@;
    push_length(output, bytes.len());
    push_bytes(output, bytes);
    assert(output@ =~= before + framed(bytes@));
}

/// The models of the fields of a record.
pub open spec fn field_bytes(fields: Seq<(&str, &[u8])>) -> Seq<(Seq<u8>, Seq<u8>)> {
    fields.map_values(|field: (&str, &[u8])| (encode_utf8(field.0@), field.1@))
}

/// The canonical bytes of a record: its domain, then the name and the value of each field, each
/// behind its own length, so that different records never share their bytes.
pub fn canonical_fields(domain: &str, fields: &[(&str, &[u8])]) -> (output: Vec<u8>)
    ensures
        output@ == canonical_bytes(encode_utf8(domain@), field_bytes(fields@)),
{
    let mut output: Vec<u8> = Vec::new();
    push_framed(&mut output, domain.as_bytes());
    let ghost all = field_bytes(fields@);
    assert(output@ =~= canonical_bytes(encode_utf8(domain@), all.take(0)));
    let mut i: usize = 0;
    while i < fields.len()
        invariant
            i <= fields.len(),
            all == field_bytes(fields@),
            output@ == canonical_bytes(encode_utf8(domain@), all.take(i as int)),
        decreases fields.len() - i,
    {
        let field = fields[i];
        push_framed(&mut output, field.0.as_bytes());
        push_framed(&mut output, field.1);
        proof {
            lemma_framed_fields_push(all.take(i as int), all[i as int]);
            assert(all.take(i as int + 1) =~= all.take(i as int).push(all[i as int]));
            assert(output@ =~= canonical_bytes(encode_utf8(domain@), all.take(i as int + 1)));
        }
        i = i + 1;
    }
    assert(all.take(i as int) =~= all);
    output
}

/// The associated data that binds an envelope to its account and factor.
pub open spec fn mfa_aad_bytes(account_id: Seq<char>, factor_id: Seq<char>) -> Seq<u8> {
    canonical_bytes(
        encode_utf8("rctl-mfa-secret-v1"@),
        seq![
            (encode_utf8("account_id"@), encode_utf8(account_id)),
            (encode_utf8("factor_id"@), encode_utf8(factor_id)),
        ],
    )
}

/// The associated data that binds an envelope to its account and factor.
pub fn mfa_aad(account_id: &str, factor_id: &str) -> (aad: Vec<u8>)
    ensures
        aad@ == mfa_aad_bytes(account_id@, factor_id@),
{
    let fields = [("account_id", account_id.as_bytes()), ("factor_id", factor_id.as_bytes())];
    let aad = canonical_fields("rctl-mfa-secret-v1", fields.as_slice());
    assert(field_bytes(fields@) =~= seq![
        (encode_utf8("account_id"@), encode_utf8(account_id@)),
        (encode_utf8("factor_id"@), encode_utf8(factor_id@)),
    ]);
    aad
}

/// Envelopes of different accounts or factors are bound to different associated data.
pub proof fn mfa_aad_binds_account_and_factor(
    account_a: Seq<char>,
    factor_a: Seq<char>,
    account_b: Seq<char>,
    factor_b: Seq<char>,
)
    requires
        encode_utf8(account_a).len() <= u64::MAX,
        encode_utf8(factor_a).len() <= u64::MAX,
        encode_utf8(account_b).len() <= u64::MAX,
        encode_utf8(factor_b).len() <= u64::MAX,
        mfa_aad_bytes(account_a, factor_a) == mfa_aad_bytes(account_b, factor_b),
    ensures
        account_a == account_b,
        factor_a == factor_b,
{
    reveal_strlit("rctl-mfa-secret-v1");
    reveal_strlit("account_id");
    reveal_strlit("factor_id");
    vstd::utf8::is_ascii_chars_encode_utf8("rctl-mfa-secret-v1"@);
    vstd::utf8::is_ascii_chars_encode_utf8("account_id"@);
    vstd::utf8::is_ascii_chars_encode_utf8("factor_id"@);
    let domain = encode_utf8("rctl-mfa-secret-v1"@);
    let fields_a = seq![
        (encode_utf8("account_id"@), encode_utf8(account_a)),
        (encode_utf8("factor_id"@), encode_utf8(factor_a)),
    ];
    let fields_b = seq![
        (encode_utf8("account_id"@), encode_utf8(account_b)),
        (encode_utf8("factor_id"@), encode_utf8(factor_b)),
    ];
    canonical_bytes_are_unique(domain, fields_a, domain, fields_b);
    assert(fields_a[0] == fields_b[0]);
    assert(fields_a[1] == fields_b[1]);
    lemma_utf8_injective(account_a, account_b);
    lemma_utf8_injective(factor_a, factor_b);
}

/// The envelope of a plaintext: the version, the nonce and the sealed plaintext.
pub open spec fn mfa_envelope(
    key: Seq<u8>,
    nonce: Seq<u8>,
    account_id: Seq<char>,
    factor_id: Seq<char>,
    plaintext: Seq<u8>,
) -> Seq<u8> {
    seq![MFA_ENVELOPE_VERSION] + nonce + chacha_sealed(
        key,
        nonce,
        mfa_aad_bytes(account_id, factor_id),
        plaintext,
    )
}

/// Whether an envelope has the version and room for more than its nonce.
pub open spec fn envelope_shape_valid(envelope: Seq<u8>) -> bool {
    envelope.len() > 13 && envelope[0] == MFA_ENVELOPE_VERSION
}

/// The plaintext of an envelope that has the right shape, where it is authentic for the account
/// and the factor.
pub open spec fn envelope_plaintext(
    key: Seq<u8>,
    account_id: Seq<char>,
    factor_id: Seq<char>,
    envelope: Seq<u8>,
) -> Option<Seq<u8>> {
    if envelope.len() - 13 > MAX_PLAINTEXT_BYTES + 16 {
        None
    } else {
        chacha_opened(
            key,
            envelope.subrange(1, 13),
            mfa_aad_bytes(account_id, factor_id),
            envelope.subrange(13, envelope.len() as int),
        )
    }
}

/// Seals a plaintext under a given nonce.
pub fn seal_mfa(key: &[u8; 32], nonce: &[u8; 12], factor: &MfaFactor, plaintext: &[u8]) -> (result:
    Result<Vec<u8>, String>)
    ensures
        result is Ok <==> plaintext@.len() <= MAX_PLAINTEXT_BYTES,
        result is Ok ==> result->Ok_0@ == mfa_envelope(
            key@,
            nonce@,
            factor.account_id@,
            factor.factor_id@,
            plaintext@,
        ),
        result is Ok ==> envelope_shape_valid(result->Ok_0@),
        result is Ok ==> envelope_plaintext(
            key@,
            factor.account_id@,
            factor.factor_id@,
            result->Ok_0@,
        ) == Some(plaintext@),
        result is Err ==> result->Err_0@ == "encrypt MFA secret"@,
{
    if plaintext.len() as u64 > MAX_PLAINTEXT_BYTES {
        return Err("encrypt MFA secret".to_owned());
    }
    let aad = mfa_aad(factor.account_id.as_str(), factor.factor_id.as_str());
    match chacha_seal(key, nonce, aad.as_slice(), plaintext) {
        Ok(sealed) => {
            let mut envelope: Vec<u8> = Vec::new();
            envelope.push(MFA_ENVELOPE_VERSION);
            push_bytes(&mut envelope, nonce.as_slice());
            push_bytes(&mut envelope, sealed.as_slice());
            assert(envelope@ =~= mfa_envelope(
                key@,
                nonce@,
                factor.account_id@,
                factor.factor_id@,
                plaintext@,
            ));
            assert(envelope@.subrange(1, 13) =~= nonce@);
            assert(envelope@.subrange(13, envelope@.len() as int) =~= sealed@);
            Ok(envelope)
        },
        Err(_) => Err("encrypt MFA secret".to_owned()),
    }
}

/// Seals the encoded secret of a factor under a fresh nonce.
pub fn encrypt_mfa(key: &[u8; 32], factor: &MfaFactor, plaintext: &[u8]) -> (result: Result<
    Vec<u8>,
    String,
>)
    ensures
        result is Ok <==> plaintext@.len() <= MAX_PLAINTEXT_BYTES,
        result is Ok ==> exists|nonce: Seq<u8>|
            nonce.len() == 12 && result->Ok_0@ == #[trigger] mfa_envelope(
                key@,
                nonce,
                factor.account_id@,
                factor.factor_id@,
                plaintext@,
            ),
        result is Ok ==> envelope_shape_valid(result->Ok_0@),
        result is Ok ==> envelope_plaintext(
            key@,
            factor.account_id@,
            factor.factor_id@,
            result->Ok_0@,
        ) == Some(plaintext@),
        result is Err ==> result->Err_0@ == "encrypt MFA secret"@,
{
    let nonce = random_nonce();
    seal_mfa(key, &nonce, factor, plaintext)
}

/// Opens the envelope of a factor and gives its encoded secret.
pub fn decrypt_mfa(key: &[u8; 32], account_id: &str, factor_id: &str, envelope: &[u8]) -> (result:
    Result<Vec<u8>, String>)
    ensures
        result is Ok <==> envelope_shape_valid(envelope@) && envelope_plaintext(
            key@,
            account_id@,
            factor_id@,
            envelope@,
        ) is Some,
        result is Ok ==> Some(result->Ok_0@) == envelope_plaintext(
            key@,
            account_id@,
            factor_id@,
            envelope@,
        ),
        result is Err ==> result->Err_0@ == if envelope_shape_valid(envelope@) {
            "MFA secret authentication failed"@
        } else {
            "MFA secret envelope is invalid"@
        },
{
    if envelope.len() <= 1 + MFA_NONCE_BYTES || envelope[0] != MFA_ENVELOPE_VERSION {
        return Err("MFA secret envelope is invalid".to_owned());
    }
    if (envelope.len() - 13) as u64 > MAX_PLAINTEXT_BYTES + 16 {
        return Err("MFA secret authentication failed".to_owned());
    }
    let mut nonce: [u8; 12] = [0u8; 12];
    let mut i: usize = 0;
    while i < 12
        invariant
            i <= 12,
            envelope@.len() > 13,
            forall|k: int| 0 <= k < i ==> nonce@[k] == envelope@[k + 1],
        decreases 12 - i,
    {
        nonce[i] = envelope[i + 1];
        i = i + 1;
    }
    assert(nonce@ =~= envelope@.subrange(1, 13));
    let sealed = vstd::slice::slice_subrange(envelope, 13, envelope.len());
    let aad = mfa_aad(account_id, factor_id);
    match chacha_open(key, &nonce, aad.as_slice(), sealed) {
        Ok(plaintext) => Ok(plaintext),
        Err(_) => Err("MFA secret authentication failed".to_owned()),
    }
}

} // verus!
