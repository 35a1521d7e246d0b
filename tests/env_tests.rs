use zkvm_env::channel::{stderr, stdin, stdout, CodecError, FdReader, FdWriter, JOURNAL, STDIN};
use zkvm_env::claim::{
    Assumptions, Digestible, ExitCode, InvalidExitCodeError, MaybePruned, Output,
    PrunedValueError, ReceiptClaim,
};
use zkvm_env::digest::{hash_bytes, tagged_struct, Digest};
use zkvm_env::env::{
    accept_exit_code, commit_slice, exit, finalize, pause, verify, verify_integrity,
    CompositionContext, VerifyError, VerifyIntegrityError,
};

fn digest_of(seed: u32) -> Digest {
    Digest::new([seed, seed + 1, seed + 2, seed + 3, seed + 4, seed + 5, seed + 6, seed + 7])
}

fn unconditional_claim(seed: u32) -> ReceiptClaim {
    ReceiptClaim {
        pre: MaybePruned::Pruned(digest_of(seed)),
        post: MaybePruned::Pruned(digest_of(seed + 100)),
        exit_code: ExitCode::Halted(0),
        input: Digest::zero(),
        output: MaybePruned::Value(None),
    }
}

fn claim_with_output(output: MaybePruned<Option<Output>>) -> ReceiptClaim {
    ReceiptClaim { output, ..unconditional_claim(1) }
}

#[test]
fn sha256_of_abc_is_read_little_endian() {
    let d = hash_bytes(b"abc");
    let expected: [u8; 32] = [
        0xba, 0x78, 0x16, 0xbf, 0x8f, 0x01, 0xcf, 0xea, 0x41, 0x41, 0x40, 0xde, 0x5d, 0xae,
        0x22, 0x23, 0xb0, 0x03, 0x61, 0xa3, 0x96, 0x17, 0x7a, 0x9c, 0xb4, 0x10, 0xff, 0x61,
        0xf2, 0x00, 0x15, 0xad,
    ];
    assert_eq!(d.to_bytes(), expected.to_vec());
    assert_eq!(d.as_words()[0], 0xbf16_78ba);
}

#[test]
fn digest_bytes_round_trip() {
    let d = digest_of(0x0102_0304);
    let bytes = d.to_bytes();
    assert_eq!(bytes.len(), 32);
    assert_eq!(&bytes[0..4], &[0x04, 0x03, 0x02, 0x01]);
    assert_eq!(Digest::from_bytes(&bytes), d);
}

#[test]
fn zero_digest_is_zero() {
    assert!(Digest::zero().is_zero());
    assert!(!digest_of(0).is_zero());
    assert_eq!(Digest::zero().as_words(), [0u32; 8]);
}

#[test]
fn tagged_struct_counts_the_digests() {
    let a = tagged_struct("t", &[digest_of(1)], &[]);
    let b = tagged_struct("t", &[digest_of(1)], &[0]);
    let c = tagged_struct("u", &[digest_of(1)], &[]);
    assert_ne!(a, b);
    assert_ne!(a, c);
}

#[test]
fn exit_code_pairs() {
    assert_eq!(ExitCode::from_pair(0, 7), Ok(ExitCode::Halted(7)));
    assert_eq!(ExitCode::from_pair(1, 0), Ok(ExitCode::Paused(0)));
    assert_eq!(ExitCode::from_pair(2, 0), Ok(ExitCode::SystemSplit));
    assert_eq!(ExitCode::from_pair(2, 1), Err(InvalidExitCodeError(2, 1)));
    assert_eq!(ExitCode::from_pair(5, 0), Err(InvalidExitCodeError(5, 0)));
    assert_eq!(ExitCode::Paused(3).into_pair(), (1, 3));
    assert_eq!(ExitCode::SystemSplit.into_pair(), (2, 0));
    assert!(ExitCode::Halted(0).is_ok());
    assert!(!ExitCode::Halted(1).is_ok());
    assert!(!ExitCode::SystemSplit.is_ok());
}

#[test]
fn accept_exit_code_gates_outcomes() {
    assert_eq!(accept_exit_code(0, 0), Ok(ExitCode::Halted(0)));
    assert_eq!(accept_exit_code(1, 0), Ok(ExitCode::Paused(0)));
    assert_eq!(
        accept_exit_code(0, 1),
        Err(VerifyError::BadExitCodeResponse(InvalidExitCodeError(0, 1)))
    );
    assert_eq!(
        accept_exit_code(2, 0),
        Err(VerifyError::BadExitCodeResponse(InvalidExitCodeError(2, 0)))
    );
    assert_eq!(
        accept_exit_code(9, 0),
        Err(VerifyError::BadExitCodeResponse(InvalidExitCodeError(9, 0)))
    );
}

#[test]
fn verify_rejects_bad_exit_codes_and_keeps_state() {
    let mut ctx = CompositionContext::init([1, 2, 3, 4]);
    for code in [2u32, 3, 100] {
        let r = verify(&mut ctx, digest_of(1), b"j", digest_of(2), code);
        assert_eq!(r, Err(VerifyError::BadExitCodeResponse(InvalidExitCodeError(code, 0))));
        assert_eq!(ctx.assumptions_digest(), Digest::zero());
    }
}

#[test]
fn verify_empty_journal_assumes_the_claim() {
    let image_id = digest_of(10);
    let post = digest_of(20);
    let mut ctx = CompositionContext::init([0; 4]);
    assert_eq!(verify(&mut ctx, image_id, &[], post, 0), Ok(()));
    let claim = ReceiptClaim {
        pre: MaybePruned::Pruned(image_id),
        post: MaybePruned::Pruned(post),
        exit_code: ExitCode::Halted(0),
        input: Digest::zero(),
        output: MaybePruned::Value(Some(Output {
            journal: MaybePruned::Value(Vec::new()),
            assumptions: MaybePruned::Pruned(Digest::zero()),
        })),
    };
    let expected = Assumptions(vec![claim.digest()]).digest();
    assert_eq!(ctx.assumptions_digest(), expected);
    assert_ne!(expected, Digest::zero());
}

#[test]
fn verify_paused_zero_uses_paused_claim() {
    let mut halted = CompositionContext::init([0; 4]);
    let mut paused = CompositionContext::init([0; 4]);
    assert_eq!(verify(&mut halted, digest_of(1), b"x", digest_of(2), 0), Ok(()));
    assert_eq!(verify(&mut paused, digest_of(1), b"x", digest_of(2), 1), Ok(()));
    assert_ne!(halted.assumptions_digest(), paused.assumptions_digest());
}

#[test]
fn pruning_keeps_the_digest() {
    let journal = b"hello".to_vec();
    let full: MaybePruned<Vec<u8>> = MaybePruned::Value(journal.clone());
    let pruned: MaybePruned<Vec<u8>> = MaybePruned::Pruned(hash_bytes(&journal));
    assert_eq!(full.digest(), pruned.digest());
    let claim = unconditional_claim(3);
    let pruned_claim: MaybePruned<ReceiptClaim> = MaybePruned::Pruned(claim.digest());
    assert_eq!(MaybePruned::Value(claim.clone()).digest(), pruned_claim.digest());
    assert!(pruned_claim.as_value().is_err());
    match pruned_claim.as_value() {
        Err(PrunedValueError(d)) => assert_eq!(d, claim.digest()),
        Ok(_) => panic!("a pruned value has no value"),
    }
}

#[test]
fn assumptions_list_matches_running_digest() {
    let mut list = Assumptions(Vec::new());
    assert_eq!(list.digest(), Digest::zero());
    let a = unconditional_claim(1);
    let b = unconditional_claim(2);
    let mut ctx = CompositionContext::init([0; 4]);
    assert_eq!(verify_integrity(&mut ctx, &a), Ok(a.digest()));
    assert_eq!(verify_integrity(&mut ctx, &b), Ok(b.digest()));
    list.add(a.digest());
    list.add(b.digest());
    assert_eq!(ctx.assumptions_digest(), list.digest());
}

#[test]
fn verify_integrity_order_matters() {
    let a = unconditional_claim(1);
    let b = unconditional_claim(2);
    assert_ne!(a.digest(), b.digest());
    let mut ab = CompositionContext::init([0; 4]);
    let mut ba = CompositionContext::init([0; 4]);
    verify_integrity(&mut ab, &a).unwrap();
    verify_integrity(&mut ab, &b).unwrap();
    verify_integrity(&mut ba, &b).unwrap();
    verify_integrity(&mut ba, &a).unwrap();
    assert_ne!(ab.assumptions_digest(), ba.assumptions_digest());
}

#[test]
fn verify_integrity_refuses_conditional_claims() {
    let mut ctx = CompositionContext::init([0; 4]);
    verify_integrity(&mut ctx, &unconditional_claim(5)).unwrap();
    let before = ctx.assumptions_digest();

    let pruned_list = claim_with_output(MaybePruned::Value(Some(Output {
        journal: MaybePruned::Value(Vec::new()),
        assumptions: MaybePruned::Pruned(digest_of(9)),
    })));
    assert_eq!(
        verify_integrity(&mut ctx, &pruned_list),
        Err(VerifyIntegrityError::NonEmptyAssumptionsList)
    );
    assert_eq!(ctx.assumptions_digest(), before);

    let listed = claim_with_output(MaybePruned::Value(Some(Output {
        journal: MaybePruned::Value(Vec::new()),
        assumptions: MaybePruned::Value(Assumptions(vec![digest_of(4)])),
    })));
    assert_eq!(
        verify_integrity(&mut ctx, &listed),
        Err(VerifyIntegrityError::NonEmptyAssumptionsList)
    );
    assert_eq!(ctx.assumptions_digest(), before);
}

#[test]
fn verify_integrity_pruned_output() {
    let mut ctx = CompositionContext::init([0; 4]);
    let hidden = claim_with_output(MaybePruned::Pruned(digest_of(7)));
    assert_eq!(
        verify_integrity(&mut ctx, &hidden),
        Err(VerifyIntegrityError::PrunedValueError(PrunedValueError(digest_of(7))))
    );
    assert_eq!(ctx.assumptions_digest(), Digest::zero());

    let absent = claim_with_output(MaybePruned::Pruned(Digest::zero()));
    assert_eq!(verify_integrity(&mut ctx, &absent), Ok(absent.digest()));

    let empty_list = claim_with_output(MaybePruned::Value(Some(Output {
        journal: MaybePruned::Value(b"out".to_vec()),
        assumptions: MaybePruned::Value(Assumptions(Vec::new())),
    })));
    assert_eq!(verify_integrity(&mut ctx, &empty_list), Ok(empty_list.digest()));
}

#[test]
fn journal_digest_hashes_the_concatenation() {
    let mut ctx = CompositionContext::init([0; 4]);
    assert_eq!(ctx.journal_digest(), hash_bytes(&[]));
    commit_slice(&mut ctx, b"ab");
    commit_slice(&mut ctx, b"");
    commit_slice(&mut ctx, b"cde");
    assert_eq!(ctx.journal_digest(), hash_bytes(b"abcde"));
    assert_eq!(ctx.take_journal_output(), b"abcde".to_vec());
    assert_eq!(ctx.take_journal_output(), Vec::<u8>::new());

    let mut other = CompositionContext::init([0; 4]);
    commit_slice(&mut other, b"cde");
    commit_slice(&mut other, b"ab");
    assert_ne!(other.journal_digest(), ctx.journal_digest());
}

#[test]
fn journal_words_and_padding_are_hashed() {
    let mut ctx = CompositionContext::init([0; 4]);
    ctx.commit_words(&[0x0403_0201]);
    ctx.commit_padded_bytes(b"xy");
    assert_eq!(ctx.journal_digest(), hash_bytes(&[1, 2, 3, 4, b'x', b'y', 0, 0]));
    assert_eq!(ctx.take_journal_output(), vec![1, 2, 3, 4, b'x', b'y', 0, 0]);
}

#[test]
fn finalize_commits_journal_and_assumptions() {
    let mut ctx = CompositionContext::init([0; 4]);
    commit_slice(&mut ctx, b"data");
    verify_integrity(&mut ctx, &unconditional_claim(1)).unwrap();
    let output = Output {
        journal: MaybePruned::Value(b"data".to_vec()),
        assumptions: MaybePruned::Pruned(ctx.assumptions_digest()),
    };
    let end = finalize(&ctx, true, 3);
    assert!(end.halt);
    assert_eq!(end.user_exit, 3);
    assert_eq!(end.output_digest, output.digest());
    let end = exit(ctx, 3);
    assert!(end.halt);
    assert_eq!(end.output_digest, output.digest());
}

#[test]
fn pause_resets_the_segment() {
    let mut ctx = CompositionContext::init([5; 4]);
    commit_slice(&mut ctx, b"first");
    verify_integrity(&mut ctx, &unconditional_claim(2)).unwrap();
    let before = finalize(&ctx, false, 1);
    let end = pause(&mut ctx, 1);
    assert!(!end.halt);
    assert_eq!(end.user_exit, 1);
    assert_eq!(end.output_digest, before.output_digest);
    assert_eq!(ctx.journal_digest(), hash_bytes(&[]));
    assert_eq!(ctx.assumptions_digest(), Digest::zero());
    ctx.reseed([6; 4]);
    let fresh = CompositionContext::init([6; 4]);
    assert_eq!(finalize(&ctx, false, 1).output_digest, finalize(&fresh, false, 1).output_digest);
    assert_ne!(before.output_digest, finalize(&fresh, false, 1).output_digest);
}

#[test]
fn padded_write_then_read_round_trips() {
    for len in 0usize..=11 {
        let bytes: Vec<u8> = (0..len).map(|i| (i as u8) + 1).collect();
        let mut w = FdWriter::new(7);
        w.write_padded_bytes(&bytes);
        w.write_bytes(&[0xee, 0xee]);
        let sent = w.take_queued();
        let padded = (len + 3) / 4 * 4;
        assert_eq!(sent.len(), padded + 2);
        assert!(sent[len..padded].iter().all(|b| *b == 0));

        let reader = FdReader::new(7);
        let mut read = reader.read_padded_bytes(len);
        let mut pos = 0usize;
        while !read.is_done() {
            let n = read.remaining().min(1);
            read.accept(&sent[pos..pos + n]);
            pos += n;
        }
        assert_eq!(pos, padded);
        assert_eq!(read.finish(), Ok(bytes));
    }
}

#[test]
fn read_stops_at_end_of_channel() {
    let reader = FdReader::new(STDIN);
    let mut read = reader.read_bytes_all(6);
    assert_eq!(read.remaining(), 6);
    read.accept(b"abc");
    assert!(!read.is_done());
    assert_eq!(read.remaining(), 3);
    read.accept(&[]);
    assert!(read.is_done());
    assert_eq!(read.remaining(), 0);
    assert_eq!(read.total(), 3);
    assert_eq!(read.finish(), Err(CodecError::DeserializeUnexpectedEnd));

    let mut padded = reader.read_padded_bytes(3);
    padded.accept(b"abc");
    padded.accept(&[]);
    assert_eq!(padded.finish(), Err(CodecError::DeserializeUnexpectedEnd));
}

#[test]
fn read_words_needs_every_byte() {
    let reader = stdin();
    assert_eq!(reader.fd(), STDIN);
    assert_eq!(reader.read_words(3, 12), Ok(()));
    assert_eq!(reader.read_words(3, 11), Err(CodecError::DeserializeUnexpectedEnd));
    assert_eq!(reader.read_words(0, 0), Ok(()));
}

#[test]
fn writers_queue_little_endian_words() {
    let mut w = stdout();
    assert_eq!(w.fd(), 1);
    assert_eq!(stderr().fd(), 2);
    w.write_words(&[0x1122_3344, 1]);
    assert_eq!(w.take_queued(), vec![0x44, 0x33, 0x22, 0x11, 1, 0, 0, 0]);
    assert_ne!(JOURNAL, STDIN);
}
