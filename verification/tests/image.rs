//! The image-verification policy, around a decoder that reports what it is told.

use std::cell::Cell;

use entangled_client::image::{
    verify_image, DecodeError, Decoded, Decoder, ImageBudget, NoRetrySet,
};
use entangled_client::protocol::{DiagnosticCode, ImageMediaType, ImageRef};
use sha2::{Digest, Sha256};

fn sha256_image(body: &[u8]) -> [u8; 32] {
    Sha256::digest(body).into()
}

/// A decoder that returns a fixed result, for testing the policy around it.
struct FakeDecoder {
    result: Result<Decoded, DecodeError>,
}

impl Decoder for FakeDecoder {
    fn decode(&self, _bytes: &[u8], _media_type: ImageMediaType) -> Result<Decoded, DecodeError> {
        self.result
    }
}

fn ok_decoder(width: u32, height: u32) -> FakeDecoder {
    FakeDecoder {
        result: Ok(Decoded {
            width,
            height,
            animated: false,
        }),
    }
}

/// An ImageRef whose declared sha256 matches `body`, declared as png WxH.
fn image_for(body: &[u8], width: u32, height: u32) -> ImageRef {
    ImageRef {
        src: "/img/a.png".to_owned(),
        sha256: sha256_image(body),
        media_type: ImageMediaType::Png,
        width,
        height,
        alt: "alt".to_owned(),
        caption: None,
    }
}

#[test]
fn accepts_a_well_formed_image() {
    let body = b"the image bytes";
    let image = image_for(body, 800, 600);
    let mut budget = ImageBudget::new();
    let mut no_retry = NoRetrySet::new();

    let outcome = verify_image(
        &image,
        body,
        "image/png",
        &ok_decoder(800, 600),
        &mut budget,
        &mut no_retry,
    );
    assert_eq!(
        outcome,
        entangled_client::image::ImageOutcome::Accept(Decoded {
            width: 800,
            height: 600,
            animated: false,
        })
    );
    assert_eq!(budget.used(), 800 * 600);
}

#[test]
fn content_type_mismatch_rejected() {
    let body = b"x";
    let image = image_for(body, 1, 1);
    let outcome = verify_image(
        &image,
        body,
        "image/jpeg", // declared png; header says jpeg
        &ok_decoder(1, 1),
        &mut ImageBudget::new(),
        &mut NoRetrySet::new(),
    );
    assert_eq!(
        outcome.diagnostic(),
        Some(DiagnosticCode::WImageContentType)
    );
}

#[test]
fn content_type_with_parameters_still_matches() {
    let body = b"x";
    let image = image_for(body, 1, 1);
    let outcome = verify_image(
        &image,
        body,
        "image/png; charset=binary",
        &ok_decoder(1, 1),
        &mut ImageBudget::new(),
        &mut NoRetrySet::new(),
    );
    assert!(outcome.is_accepted());
}

#[test]
fn oversize_body_rejected() {
    let body = vec![0u8; 2 * 1024 * 1024 + 1];
    let image = image_for(&body, 1, 1);
    let outcome = verify_image(
        &image,
        &body,
        "image/png",
        &ok_decoder(1, 1),
        &mut ImageBudget::new(),
        &mut NoRetrySet::new(),
    );
    assert_eq!(outcome.diagnostic(), Some(DiagnosticCode::WImageOversize));
}

#[test]
fn hash_mismatch_rejected() {
    let body = b"the image bytes";
    let mut image = image_for(body, 1, 1);
    // Declare a different hash than the body's.
    image.sha256 = sha256_image(b"different bytes");
    let outcome = verify_image(
        &image,
        body,
        "image/png",
        &ok_decoder(1, 1),
        &mut ImageBudget::new(),
        &mut NoRetrySet::new(),
    );
    assert_eq!(
        outcome.diagnostic(),
        Some(DiagnosticCode::WImageHashMismatch)
    );
}

#[test]
fn decode_failure_rejected() {
    let body = b"x";
    let image = image_for(body, 1, 1);
    let decoder = FakeDecoder {
        result: Err(DecodeError),
    };
    let outcome = verify_image(
        &image,
        body,
        "image/png",
        &decoder,
        &mut ImageBudget::new(),
        &mut NoRetrySet::new(),
    );
    assert_eq!(
        outcome.diagnostic(),
        Some(DiagnosticCode::WImageDecodeFailed)
    );
}

#[test]
fn animated_webp_rejected() {
    let body = b"webp bytes";
    let mut image = image_for(body, 2, 2);
    image.media_type = ImageMediaType::Webp;
    let decoder = FakeDecoder {
        result: Ok(Decoded {
            width: 2,
            height: 2,
            animated: true,
        }),
    };
    let outcome = verify_image(
        &image,
        body,
        "image/webp",
        &decoder,
        &mut ImageBudget::new(),
        &mut NoRetrySet::new(),
    );
    assert_eq!(
        outcome.diagnostic(),
        Some(DiagnosticCode::WImageDecodeFailed)
    );
}

#[test]
fn dimension_mismatch_rejected() {
    let body = b"x";
    let image = image_for(body, 100, 100);
    // Decoder reports different real dimensions than declared.
    let outcome = verify_image(
        &image,
        body,
        "image/png",
        &ok_decoder(120, 100),
        &mut ImageBudget::new(),
        &mut NoRetrySet::new(),
    );
    assert_eq!(outcome.diagnostic(), Some(DiagnosticCode::WImageDimensions));
}

#[test]
fn budget_is_cumulative_and_blocks_once_exceeded() {
    let mut budget = ImageBudget::new();
    let mut no_retry = NoRetrySet::new();

    // First image: 4096x4096 = 16,777,216 px = exactly the budget. Accepts.
    let b1 = b"first";
    let i1 = image_for(b1, 4096, 4096);
    let o1 = verify_image(
        &i1,
        b1,
        "image/png",
        &ok_decoder(4096, 4096),
        &mut budget,
        &mut no_retry,
    );
    assert!(o1.is_accepted());
    assert_eq!(budget.used(), 16_777_216);

    // Second image: any pixels now exceed the 16 MP budget -> refused.
    let b2 = b"second";
    let i2 = image_for(b2, 1, 1);
    let o2 = verify_image(
        &i2,
        b2,
        "image/png",
        &ok_decoder(1, 1),
        &mut budget,
        &mut no_retry,
    );
    assert_eq!(o2.diagnostic(), Some(DiagnosticCode::WImageBudget));
}

#[test]
fn failed_triple_is_not_retried() {
    let body = b"x";
    let mut image = image_for(body, 1, 1);
    image.sha256 = sha256_image(b"wrong"); // will fail hash
    let mut no_retry = NoRetrySet::new();

    // First attempt fails with the real diagnostic and records the triple.
    let first = verify_image(
        &image,
        body,
        "image/png",
        &ok_decoder(1, 1),
        &mut ImageBudget::new(),
        &mut no_retry,
    );
    assert_eq!(first.diagnostic(), Some(DiagnosticCode::WImageHashMismatch));
    assert!(no_retry.contains(&image));

    // Second attempt for the same triple is short-circuited (no re-verify).
    let second = verify_image(
        &image,
        body,
        "image/png",
        &ok_decoder(1, 1),
        &mut ImageBudget::new(),
        &mut no_retry,
    );
    assert!(!second.is_accepted());
}

#[test]
fn content_type_ignores_case_and_space() {
    let body = b"x";
    let image = image_for(body, 1, 1);
    for header in [" IMAGE/Png ", "image/png;", "\timage/PNG\u{a0}; q=1"] {
        let outcome = verify_image(
            &image,
            body,
            header,
            &ok_decoder(1, 1),
            &mut ImageBudget::new(),
            &mut NoRetrySet::new(),
        );
        assert!(outcome.is_accepted(), "{header:?}");
    }
    for header in ["", ";image/png", "image/pn", "image/pngx", "image /png"] {
        let outcome = verify_image(
            &image,
            body,
            header,
            &ok_decoder(1, 1),
            &mut ImageBudget::new(),
            &mut NoRetrySet::new(),
        );
        assert_eq!(
            outcome.diagnostic(),
            Some(DiagnosticCode::WImageContentType),
            "{header:?}"
        );
    }
}

#[test]
fn exhausted_budget_refuses_every_later_image() {
    let mut budget = ImageBudget::new();
    let mut no_retry = NoRetrySet::new();
    let mut verify = |name: &str, width: u32, height: u32| {
        let image = image_for(name.as_bytes(), width, height);
        verify_image(
            &image,
            name.as_bytes(),
            "image/png",
            &ok_decoder(width, height),
            &mut budget,
            &mut no_retry,
        )
    };
    assert!(verify("a", 4096, 4095).is_accepted());
    // Four thousand pixels are left: this one does not fit.
    assert_eq!(
        verify("b", 4096, 2).diagnostic(),
        Some(DiagnosticCode::WImageBudget)
    );
    // And neither does a smaller one after it.
    assert_eq!(
        verify("c", 1, 1).diagnostic(),
        Some(DiagnosticCode::WImageBudget)
    );
    assert_eq!(budget.used(), 4096 * 4095);
}

#[test]
fn huge_dimensions_do_not_overflow() {
    let body = b"x";
    let image = image_for(body, u32::MAX, u32::MAX);
    let mut budget = ImageBudget::new();
    let outcome = verify_image(
        &image,
        body,
        "image/png",
        &ok_decoder(u32::MAX, u32::MAX),
        &mut budget,
        &mut NoRetrySet::new(),
    );
    assert_eq!(outcome.diagnostic(), Some(DiagnosticCode::WImageBudget));
    assert_eq!(budget.used(), 0);
}

#[test]
fn retry_is_refused_for_the_same_triple_only() {
    let body = b"x";
    let image = image_for(body, 1, 1);
    let mut no_retry = NoRetrySet::new();
    let mut budget = ImageBudget::new();
    let failed = FakeDecoder {
        result: Err(DecodeError),
    };
    verify_image(&image, body, "image/png", &failed, &mut budget, &mut no_retry);
    let mut elsewhere = image_for(body, 1, 1);
    elsewhere.src = "/img/b.png".to_owned();
    assert!(no_retry.contains(&image));
    assert!(no_retry.clone().contains(&image));
    assert!(!no_retry.contains(&elsewhere));
    let outcome = verify_image(
        &elsewhere,
        body,
        "image/png",
        &ok_decoder(1, 1),
        &mut budget,
        &mut no_retry,
    );
    assert!(outcome.is_accepted());
    let again = verify_image(
        &image,
        body,
        "image/png",
        &ok_decoder(1, 1),
        &mut budget,
        &mut no_retry,
    );
    assert_eq!(
        again.diagnostic(),
        Some(DiagnosticCode::WImageDecodeFailed)
    );
    assert_eq!(budget.used(), 1);
}

#[test]
fn image_is_authenticated_by_its_known_digest() {
    let body = b"abc";
    let mut image = image_for(body, 1, 1);
    let digest = data_encoding::HEXLOWER
        .decode(b"ba7816bf8f01cfea414140de5dae2223b00361a396177a9cb410ff61f20015ad")
        .expect("hex");
    image.sha256 = digest.try_into().expect("thirty-two bytes");
    let outcome = verify_image(
        &image,
        body,
        "image/png",
        &ok_decoder(1, 1),
        &mut ImageBudget::new(),
        &mut NoRetrySet::new(),
    );
    assert!(outcome.is_accepted());
}

/// A decoder that counts how often it is asked.
struct CountingDecoder {
    asked: Cell<u32>,
}

impl Decoder for CountingDecoder {
    fn decode(&self, _bytes: &[u8], _media_type: ImageMediaType) -> Result<Decoded, DecodeError> {
        self.asked.set(self.asked.get() + 1);
        Err(DecodeError)
    }
}

#[test]
fn nothing_is_decoded_before_its_hash_is_known() {
    let decoder = CountingDecoder { asked: Cell::new(0) };
    let mut budget = ImageBudget::new();
    let mut no_retry = NoRetrySet::new();
    let body = b"bytes";
    let mut image = image_for(body, 1, 1);

    // The content type, the size and the hash come before the decoder.
    image.src = "/img/type.png".to_owned();
    verify_image(&image, body, "image/jpeg", &decoder, &mut budget, &mut no_retry);
    let large = vec![0u8; 2 * 1024 * 1024 + 1];
    let mut oversize = image_for(&large, 1, 1);
    oversize.src = "/img/large.png".to_owned();
    verify_image(&oversize, &large, "image/png", &decoder, &mut budget, &mut no_retry);
    image.src = "/img/hash.png".to_owned();
    verify_image(&image, b"others", "image/png", &decoder, &mut budget, &mut no_retry);
    assert_eq!(decoder.asked.get(), 0);

    // An authentic image is decoded once, and not again once it has failed.
    image.src = "/img/authentic.png".to_owned();
    for _ in 0..2 {
        let outcome =
            verify_image(&image, body, "image/png", &decoder, &mut budget, &mut no_retry);
        assert_eq!(outcome.diagnostic(), Some(DiagnosticCode::WImageDecodeFailed));
        assert_eq!(decoder.asked.get(), 1);
    }
}
