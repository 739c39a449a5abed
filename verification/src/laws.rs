//! What holds between the operations of the library.

use crate::cipher_state::{decrypt_post, encrypt_post, le64, nonce_bytes, CipherView};
use crate::curve::{shared_secret, Keys};
use crate::codec::NoiseCodec;
use crate::error::Error;
use crate::handshake::Symmetric;
use crate::initiator::{
    initiator_finished, initiator_keyed, initiator_started, opened_parts_were_sealed, reading,
    received_certificate, received_static, Initiator,
};
use crate::responder::{
    reply_message, reply_well_sealed, responder_finished, responder_keyed, responder_static_sent,
    Responder,
};
use crate::signature_message::certificate_valid;
use vstd::prelude::*;

verus! {

/// Decryption undoes encryption. Take two cipher states of one cipher, key and
/// counter, the counter not used up, and a message of at most 2^32 bytes. Whatever
/// encrypting the message under the first leaves as the frame, decrypting that frame
/// under the second succeeds, gives the message back, and advances the second
/// state's counter by exactly one, as encrypting advanced the first's.
pub proof fn lemma_decrypt_inverts_encrypt(
    sender: CipherView,
    receiver: CipherView,
    message: Seq<u8>,
    sender_after: CipherView,
    frame: Seq<u8>,
    sealing: Result<(), Error>,
    receiver_after: CipherView,
    received: Seq<u8>,
    opening: Result<(), Error>,
)
    requires
        sender == receiver,
        sender.key is Some,
        sender.n < u64::MAX,
        message.len() <= 0x1_0000_0000,
        encrypt_post(sender, message, sender_after, frame, sealing),
        decrypt_post(receiver, frame, receiver_after, received, opening),
    ensures
        sealing is Ok,
        opening is Ok,
        received == message,
        sender_after.n == sender.n + 1,
        receiver_after.n == receiver.n + 1,
        sender_after == receiver_after,
{
}

/// A frame that was altered on the way never yields the message that was sent.
/// Decrypting it either fails with `AeadFailure` and leaves the receiving state as it
/// was, so that the genuine frame still decrypts, or gives a message other than the
/// one that was encrypted.
pub proof fn lemma_altered_frame_is_not_the_message(
    sender: CipherView,
    receiver: CipherView,
    message: Seq<u8>,
    sender_after: CipherView,
    frame: Seq<u8>,
    sealing: Result<(), Error>,
    altered: Seq<u8>,
    receiver_after: CipherView,
    received: Seq<u8>,
    opening: Result<(), Error>,
)
    requires
        sender == receiver,
        sender.key is Some,
        sender.n < u64::MAX,
        message.len() <= 0x1_0000_0000,
        encrypt_post(sender, message, sender_after, frame, sealing),
        altered != frame,
        decrypt_post(receiver, altered, receiver_after, received, opening),
    ensures
        opening is Ok ==> received != message,
        opening is Err ==> opening == Err::<(), Error>(Error::AeadFailure) && receiver_after
            == receiver && received == altered,
{
}

/// The nonce of a counter is twelve bytes: four zeros, then the counter with its least
/// significant byte first.
pub proof fn lemma_nonce_layout(n: u64)
    ensures
        nonce_bytes(n).len() == 12,
        forall|i: int| 0 <= i < 4 ==> nonce_bytes(n)[i] == 0,
        nonce_bytes(n).subrange(4, 12) == le64(n),
        n == le64(n)[0] + 0x100 * le64(n)[1] + 0x1_0000 * le64(n)[2] + 0x100_0000 * le64(n)[3]
            + 0x1_0000_0000 * le64(n)[4] + 0x100_0000_0000 * le64(n)[5] + 0x1_0000_0000_0000
            * le64(n)[6] + 0x100_0000_0000_0000 * le64(n)[7],
{
    assert(n == (n % 0x100) + 0x100 * (n / 0x100 % 0x100) + 0x1_0000 * (n / 0x1_0000 % 0x100)
        + 0x100_0000 * (n / 0x100_0000 % 0x100) + 0x1_0000_0000 * (n / 0x1_0000_0000 % 0x100)
        + 0x100_0000_0000 * (n / 0x100_0000_0000 % 0x100) + 0x1_0000_0000_0000 * (n
        / 0x1_0000_0000_0000 % 0x100) + 0x100_0000_0000_0000 * (n / 0x100_0000_0000_0000
        % 0x100)) by (bit_vector);
}

/// Counters that differ have nonces that differ: a cipher state, whose counter only
/// moves forward, uses no nonce twice under its key.
pub proof fn lemma_nonces_differ(a: u64, b: u64)
    requires
        a != b,
    ensures
        nonce_bytes(a) != nonce_bytes(b),
{
    lemma_nonce_layout(a);
    lemma_nonce_layout(b);
}

/// Whether a handshake between an initiator with the ephemeral key pair `initiator_e`
/// and a responder with the key pairs `responder_e` and `responder_s` is one that both
/// can finish: the keys and the certificate have their sizes, each side's
/// Diffie-Hellman exchanges give what the other side's give, as they do for key pairs
/// of one curve, and the second message is sealed as the responder's step leaves it.
pub open spec fn valid_run(
    start: Symmetric,
    initiator_e: Keys,
    responder_e: Keys,
    responder_s: Keys,
    certificate: Seq<u8>,
) -> bool {
    &&& initiator_e.public.len() == 32
    &&& responder_e.public.len() == 32
    &&& responder_s.public.len() == 32
    &&& certificate.len() == 74
    &&& shared_secret(initiator_e.secret, responder_e.public) == shared_secret(
        responder_e.secret,
        initiator_e.public,
    )
    &&& shared_secret(initiator_e.secret, responder_s.public) == shared_secret(
        responder_s.secret,
        initiator_e.public,
    )
    &&& reply_well_sealed(start, responder_e, responder_s, initiator_e.public, certificate)
}

/// Both sides of a valid run end with the same symmetric state: the same chaining key
/// and the same transcript hash, and with them the same two transport keys. On the
/// way the initiator reads the responder's static key and certificate as they were
/// sent.
pub proof fn lemma_transcripts_agree(
    start: Symmetric,
    initiator_e: Keys,
    responder_e: Keys,
    responder_s: Keys,
    certificate: Seq<u8>,
)
    requires
        valid_run(start, initiator_e, responder_e, responder_s, certificate),
    ensures
        ({
            let message = reply_message(
                start,
                responder_e,
                responder_s,
                initiator_e.public,
                certificate,
            );
            let started = initiator_started(start, initiator_e.public);
            let initiator = initiator_finished(started, initiator_e, message);
            let responder = responder_finished(
                start,
                responder_e,
                responder_s,
                initiator_e.public,
                certificate,
            );
            &&& message.len() == 170
            &&& received_static(started, initiator_e, message) == Some(responder_s.public)
            &&& received_certificate(started, initiator_e, message) == Some(certificate)
            &&& initiator == responder
            &&& initiator.ck == responder.ck
            &&& initiator.h == responder.h
            &&& initiator.split() == responder.split()
        }),
{
    let re_pub = initiator_e.public;
    let message = reply_message(start, responder_e, responder_s, re_pub, certificate);
    let keyed = responder_keyed(start, responder_e, re_pub);
    let static_sent = responder_static_sent(start, responder_e, responder_s, re_pub);
    let sealed_static = keyed.encrypted(responder_s.public);
    let sealed_certificate = static_sent.encrypted(certificate);
    assert(message.subrange(0, 32) =~= responder_e.public);
    assert(message.subrange(32, 80) =~= sealed_static);
    assert(message.subrange(80, 170) =~= sealed_certificate);
    assert(static_sent.decrypt_and_hash(sealed_certificate) == static_sent.encrypt_and_hash(
        certificate,
    ));
}

/// An initiator that expects the responder's static key accepts the responder's
/// message in a valid run, if the certificate is valid under that key.
pub proof fn lemma_expected_responder_is_accepted(
    start: Symmetric,
    initiator_e: Keys,
    responder_e: Keys,
    responder_s: Keys,
    certificate: Seq<u8>,
)
    requires
        valid_run(start, initiator_e, responder_e, responder_s, certificate),
        certificate_valid(responder_s.public, certificate),
    ensures
        reading(
            initiator_started(start, initiator_e.public),
            initiator_e,
            responder_s.public,
            reply_message(start, responder_e, responder_s, initiator_e.public, certificate),
        ) is Accepted,
{
    lemma_transcripts_agree(start, initiator_e, responder_e, responder_s, certificate);
}

/// An initiator that expects another static key than the responder's refuses the
/// responder's message as an invalid certificate, whatever the certificate is.
pub proof fn lemma_unexpected_static_key_is_refused(
    start: Symmetric,
    initiator_e: Keys,
    responder_e: Keys,
    responder_s: Keys,
    certificate: Seq<u8>,
    expected: Seq<u8>,
)
    requires
        valid_run(start, initiator_e, responder_e, responder_s, certificate),
        expected != responder_s.public,
    ensures
        reading(
            initiator_started(start, initiator_e.public),
            initiator_e,
            expected,
            reply_message(start, responder_e, responder_s, initiator_e.public, certificate),
        ) is CertificateInvalid,
{
    lemma_transcripts_agree(start, initiator_e, responder_e, responder_s, certificate);
}

/// A second handshake message whose encrypted static key was altered on the way is
/// never accepted by an initiator that expects the responder's static key. The
/// message carries the responder's ephemeral key as it was sent, and its parts that
/// open are sealings of what they open to, as the initiator's step finds them.
pub proof fn lemma_altered_static_key_is_not_accepted(
    start: Symmetric,
    initiator_e: Keys,
    responder_e: Keys,
    responder_s: Keys,
    certificate: Seq<u8>,
    altered: Seq<u8>,
)
    requires
        valid_run(start, initiator_e, responder_e, responder_s, certificate),
        altered.len() == 170,
        altered.subrange(0, 32) == responder_e.public,
        altered.subrange(32, 80) != responder_keyed(
            start,
            responder_e,
            initiator_e.public,
        ).encrypted(responder_s.public),
        opened_parts_were_sealed(
            initiator_started(start, initiator_e.public),
            initiator_e,
            altered,
        ),
    ensures
        !(reading(
            initiator_started(start, initiator_e.public),
            initiator_e,
            responder_s.public,
            altered,
        ) is Accepted),
{
    let started = initiator_started(start, initiator_e.public);
    assert(initiator_keyed(started, initiator_e, altered) == responder_keyed(
        start,
        responder_e,
        initiator_e.public,
    ));
}

/// The two roles of a handshake agree. Take a responder at its start and an initiator
/// that started from the same symmetric state and has sent its ephemeral key, and let
/// the responder answer that key and the initiator read the answer.
///
/// The initiator accepts exactly when the responder's static key is the one it
/// expects and the certificate is valid under it; otherwise it refuses the
/// certificate, which it has read as it was sent. Where it accepts, both roles hold the
/// same symmetric state, chaining key and transcript hash among it, and the same two
/// pending transport keys.
pub proof fn lemma_roles_agree(
    initiator: Initiator,
    initiator_after: Initiator,
    responder: Responder,
    responder_after: Responder,
    certificate: Seq<u8>,
    second: Seq<u8>,
    third: Result<[u8; 5], Error>,
)
    requires
        initiator.phase() is SentE,
        initiator.e().usable(),
        initiator.symmetric() == initiator_started(responder.symmetric(), initiator.e().public),
        certificate.len() == 74,
        responder.replied(&responder_after, initiator.e().public, certificate, second),
        initiator.step_2_post(&initiator_after, second, third),
    ensures
        third is Ok <==> initiator.expected() == responder.s().public && certificate_valid(
            responder.s().public,
            certificate,
        ),
        third is Ok ==> initiator_after.symmetric() == responder_after.symmetric()
            && initiator_after.pending() == responder_after.pending(),
        third matches Err(error) ==> error matches Error::InvalidCertificate(received) && received@
            == certificate,
{
    let start = responder.symmetric();
    let own = initiator.e();
    lemma_transcripts_agree(start, own, responder.e(), responder.s(), certificate);
}

/// The two codecs of a finished handshake match. Take a responder and an initiator
/// that wait for the cipher list and for the cipher choice with the same pending
/// transport keys, as they do after a handshake in which the initiator accepted. If
/// the responder takes a cipher list, whatever choice it answers is one that the
/// initiator takes, and then each codec decrypts under the state that the other
/// encrypts under.
pub proof fn lemma_codecs_match(
    initiator: Initiator,
    responder: Responder,
    cipher_list: Seq<u8>,
    answered: Result<(Vec<u8>, NoiseCodec), Error>,
    finished: Result<NoiseCodec, Error>,
)
    requires
        responder.phase() is AwaitCipherList,
        initiator.phase() is VerifiedCert,
        initiator.pending() == responder.pending(),
        responder.step_3_post(cipher_list, answered),
        answered matches Ok((choice, _)) && initiator.step_4_post(choice@, finished),
    ensures
        finished is Ok,
        ({
            let codec_of_responder = answered->Ok_0.1;
            let codec_of_initiator = finished->Ok_0;
            &&& codec_of_initiator.encryptor() == codec_of_responder.decryptor()
            &&& codec_of_initiator.decryptor() == codec_of_responder.encryptor()
        }),
{
}

} // verus!
