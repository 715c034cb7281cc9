use mcpacker::fetch::{FetchAction, FetchEvent, Fetcher, LookupResult, Transfer};
use mcpacker::integrity::{digest, DigestAlgorithm};
use mcpacker::models::{ModInfo, ModMetadata, SideType};
use mcpacker::outcome::{FailureCause, MirrorError, SkipReason, TransferOutcome};

fn artifact(file_name: &str, urls: &[&str], hash: &str, algo: &str) -> ModInfo {
    ModInfo {
        name: "Example Mod".to_string(),
        file_name: file_name.to_string(),
        download_urls: urls.iter().map(|u| u.to_string()).collect(),
        hash: hash.to_string(),
        hash_algo: algo.to_string(),
        side: SideType::Both,
        is_required: true,
    }
}

fn absent() -> FetchEvent {
    FetchEvent::Existing { present: false, digest: String::new() }
}

fn transferred(url: &str, content: &[u8], algorithm: DigestAlgorithm) -> FetchEvent {
    FetchEvent::Transferred(Transfer {
        final_url: url.to_string(),
        disposition: None,
        digest: digest(algorithm, content),
        bytes: content.len() as u64,
    })
}

fn sha1_abc() -> String {
    "a9993e364706816aba3e25717850c26c9cd0d89d".to_string()
}

#[test]
fn starts_by_probing_the_placeholder() {
    let a = artifact("example.jar", &["https://a.test/x"], &sha1_abc(), "sha1");
    let f = Fetcher::new(&a, false);
    assert!(!f.is_settled());
    assert!(f.outcome().is_none());
    match f.pending() {
        FetchAction::Probe { filename, algorithm } => {
            assert_eq!(filename, "example.jar");
            assert_eq!(algorithm, DigestAlgorithm::Sha1);
        }
        other => panic!("unexpected action {:?}", other),
    }
}

#[test]
fn probe_asks_for_no_digest_when_verification_is_off() {
    let a = artifact("example.jar", &["https://a.test/x"], &sha1_abc(), "sha1");
    match Fetcher::new(&a, true).pending() {
        FetchAction::Probe { algorithm, .. } => assert_eq!(algorithm, DigestAlgorithm::Disabled),
        other => panic!("unexpected action {:?}", other),
    }
    let unknown = artifact("example.jar", &["https://a.test/x"], &sha1_abc(), "md5");
    match Fetcher::new(&unknown, false).pending() {
        FetchAction::Probe { algorithm, .. } => assert_eq!(algorithm, DigestAlgorithm::Disabled),
        other => panic!("unexpected action {:?}", other),
    }
    let empty = artifact("example.jar", &["https://a.test/x"], "", "sha1");
    match Fetcher::new(&empty, false).pending() {
        FetchAction::Probe { algorithm, .. } => assert_eq!(algorithm, DigestAlgorithm::Disabled),
        other => panic!("unexpected action {:?}", other),
    }
}

#[test]
fn existing_valid_file_is_skipped_without_any_transfer() {
    let a = artifact("example.jar", &["https://a.test/x"], &sha1_abc(), "sha1");
    let f = Fetcher::new(&a, false)
        .handle(FetchEvent::Existing { present: true, digest: sha1_abc().to_uppercase() });
    assert!(f.is_settled());
    assert!(matches!(f.outcome(), Some(TransferOutcome::Skipped(SkipReason::AlreadyPresent))));
    match f.pending() {
        FetchAction::Settle { outcome, discard } => {
            assert!(matches!(outcome, TransferOutcome::Skipped(SkipReason::AlreadyPresent)));
            assert!(discard.is_none());
        }
        other => panic!("unexpected action {:?}", other),
    }
}

#[test]
fn existing_file_with_wrong_digest_is_fetched_again() {
    let a = artifact("example.jar", &["https://a.test/x"], &sha1_abc(), "sha1");
    let f = Fetcher::new(&a, false)
        .handle(FetchEvent::Existing { present: true, digest: "00".to_string() });
    match f.pending() {
        FetchAction::Download { url, temp, algorithm } => {
            assert_eq!(url, "https://a.test/x");
            assert_eq!(temp, "example.jar.part");
            assert_eq!(algorithm, DigestAlgorithm::Sha1);
        }
        other => panic!("unexpected action {:?}", other),
    }
}

#[test]
fn existing_file_is_enough_when_verification_is_skipped() {
    let a = artifact("example.jar", &["https://a.test/x"], &sha1_abc(), "sha1");
    let f = Fetcher::new(&a, true)
        .handle(FetchEvent::Existing { present: true, digest: String::new() });
    assert!(matches!(f.outcome(), Some(TransferOutcome::Skipped(SkipReason::AlreadyPresent))));
}

#[test]
fn second_run_skips_what_the_first_completed() {
    let a = artifact("example.jar", &["https://a.test/files/12"], &sha1_abc(), "sha1");
    let first = Fetcher::new(&a, false)
        .handle(absent())
        .handle(transferred("https://a.test/files/12", b"abc", DigestAlgorithm::Sha1))
        .handle(FetchEvent::Finalized);
    let stored = match first.outcome() {
        Some(TransferOutcome::Completed { filename, bytes }) => {
            assert_eq!(bytes, 3);
            filename
        }
        other => panic!("unexpected outcome {:?}", other),
    };
    assert_eq!(stored, "example.jar");
    let second = Fetcher::new(&a, false);
    let asked = match second.pending() {
        FetchAction::Probe { filename, .. } => filename,
        other => panic!("unexpected action {:?}", other),
    };
    assert_eq!(asked, stored);
    let second = second.handle(FetchEvent::Existing {
        present: true,
        digest: digest(DigestAlgorithm::Sha1, b"abc"),
    });
    assert!(matches!(second.outcome(), Some(TransferOutcome::Skipped(SkipReason::AlreadyPresent))));
    assert!(matches!(second.pending(), FetchAction::Settle { .. }));
}

#[test]
fn third_mirror_succeeds_after_two_backoffs() {
    let urls = ["https://a.test/1", "https://b.test/2", "https://c.test/3"];
    let a = artifact("example.jar", &urls, &sha1_abc(), "sha1");
    let mut f = Fetcher::new(&a, false).handle(absent());
    let mut delays: Vec<u64> = Vec::new();
    let mut tried: Vec<String> = Vec::new();
    loop {
        match f.pending() {
            FetchAction::Download { url, .. } => {
                tried.push(url.clone());
                if tried.len() < 3 {
                    f = f.handle(FetchEvent::TransferFailed("connection reset".to_string()));
                } else {
                    f = f.handle(transferred(&url, b"abc", DigestAlgorithm::Sha1));
                }
            }
            FetchAction::Backoff { millis, temp } => {
                assert_eq!(temp, "example.jar.part");
                delays.push(millis);
                f = f.handle(FetchEvent::Waited);
            }
            FetchAction::Finalize { temp, filename } => {
                assert_eq!(temp, "example.jar.part");
                assert_eq!(filename, "example.jar");
                f = f.handle(FetchEvent::Finalized);
            }
            FetchAction::Settle { .. } => break,
            other => panic!("unexpected action {:?}", other),
        }
    }
    assert_eq!(tried, urls);
    assert_eq!(delays, vec![500, 1000]);
    assert!(matches!(f.outcome(), Some(TransferOutcome::Completed { .. })));
}

#[test]
fn exhausted_mirrors_fail_with_the_last_cause() {
    let a = artifact("example.jar", &["https://a.test/1", "https://b.test/2"], "", "none");
    let f = Fetcher::new(&a, false)
        .handle(absent())
        .handle(FetchEvent::TransferFailed("first".to_string()))
        .handle(FetchEvent::Waited)
        .handle(FetchEvent::TransferFailed("second".to_string()));
    match f.outcome() {
        Some(TransferOutcome::Failed(FailureCause::Exhausted(MirrorError::Transport(detail)))) => {
            assert_eq!(detail, "second")
        }
        other => panic!("unexpected outcome {:?}", other),
    }
    match f.pending() {
        FetchAction::Settle { discard, .. } => assert_eq!(discard, Some("example.jar.part".to_string())),
        other => panic!("unexpected action {:?}", other),
    }
}

#[test]
fn mismatching_content_is_never_finalized() {
    let a = artifact("example.jar", &["https://a.test/1"], &sha1_abc(), "sha1");
    let f = Fetcher::new(&a, false)
        .handle(absent())
        .handle(transferred("https://a.test/1", b"tampered", DigestAlgorithm::Sha1));
    match f.outcome() {
        Some(TransferOutcome::Failed(FailureCause::Exhausted(MirrorError::Integrity))) => {}
        other => panic!("unexpected outcome {:?}", other),
    }
    match f.pending() {
        FetchAction::Settle { discard, .. } => assert_eq!(discard, Some("example.jar.part".to_string())),
        other => panic!("unexpected action {:?}", other),
    }
}

#[test]
fn mismatching_content_falls_back_to_the_next_mirror() {
    let a = artifact("example.jar", &["https://a.test/1", "https://b.test/2"], &sha1_abc(), "sha1");
    let f = Fetcher::new(&a, false)
        .handle(absent())
        .handle(transferred("https://a.test/1", b"tampered", DigestAlgorithm::Sha1));
    assert!(!f.is_settled());
    match f.pending() {
        FetchAction::Backoff { millis, .. } => assert_eq!(millis, 500),
        other => panic!("unexpected action {:?}", other),
    }
    let f = f.handle(FetchEvent::Waited);
    match f.pending() {
        FetchAction::Download { url, .. } => assert_eq!(url, "https://b.test/2"),
        other => panic!("unexpected action {:?}", other),
    }
}

#[test]
fn mismatching_content_is_finalized_when_verification_is_skipped() {
    let a = artifact("example.jar", &["https://a.test/1"], &sha1_abc(), "sha1");
    let f = Fetcher::new(&a, true)
        .handle(absent())
        .handle(transferred("https://a.test/1", b"tampered", DigestAlgorithm::Disabled));
    assert!(matches!(f.pending(), FetchAction::Finalize { .. }));
    let f = f.handle(FetchEvent::Finalized);
    match f.outcome() {
        Some(TransferOutcome::Completed { filename, bytes }) => {
            assert_eq!(filename, "example.jar");
            assert_eq!(bytes, 8);
        }
        other => panic!("unexpected outcome {:?}", other),
    }
}

#[test]
fn no_sources_fail_at_once() {
    let a = artifact("example.jar", &[], "", "none");
    let f = Fetcher::new(&a, false).handle(absent());
    assert!(matches!(f.outcome(), Some(TransferOutcome::Failed(FailureCause::NoSources))));
}

#[test]
fn true_name_comes_from_the_header_before_the_location() {
    let a = artifact("placeholder.jar", &["https://a.test/dl"], "", "none");
    let f = Fetcher::new(&a, false).handle(absent()).handle(FetchEvent::Transferred(Transfer {
        final_url: "https://cdn.test/files/from-url.jar".to_string(),
        disposition: Some("attachment; filename=\"from-header.jar\"".to_string()),
        digest: String::new(),
        bytes: 10,
    }));
    match f.pending() {
        FetchAction::Finalize { temp, filename } => {
            assert_eq!(temp, "placeholder.jar.part");
            assert_eq!(filename, "from-header.jar");
        }
        other => panic!("unexpected action {:?}", other),
    }
}

#[test]
fn true_name_comes_from_the_final_location() {
    let a = artifact("placeholder.jar", &["https://a.test/dl"], "", "none");
    let f = Fetcher::new(&a, false).handle(absent()).handle(FetchEvent::Transferred(Transfer {
        final_url: "https://cdn.test/files/real%20name.jar?x=1".to_string(),
        disposition: None,
        digest: String::new(),
        bytes: 10,
    }));
    match f.pending() {
        FetchAction::Finalize { filename, .. } => assert_eq!(filename, "real name.jar"),
        other => panic!("unexpected action {:?}", other),
    }
}

#[test]
fn placeholder_is_kept_when_nothing_names_the_file() {
    let a = artifact("placeholder.jar", &["https://a.test/dl"], "", "none");
    let f = Fetcher::new(&a, false).handle(absent()).handle(FetchEvent::Transferred(Transfer {
        final_url: "https://cdn.test/download".to_string(),
        disposition: None,
        digest: String::new(),
        bytes: 10,
    }));
    match f.pending() {
        FetchAction::Finalize { filename, .. } => assert_eq!(filename, "placeholder.jar"),
        other => panic!("unexpected action {:?}", other),
    }
}

#[test]
fn resource_pack_is_skipped_and_its_temp_discarded() {
    let a = artifact("placeholder.jar", &["https://a.test/dl"], "", "none");
    let f = Fetcher::new(&a, false).handle(absent()).handle(FetchEvent::Transferred(Transfer {
        final_url: "https://cdn.test/files/pack.zip".to_string(),
        disposition: None,
        digest: String::new(),
        bytes: 10,
    }));
    assert!(matches!(f.outcome(), Some(TransferOutcome::Skipped(SkipReason::ResourcePack))));
    match f.pending() {
        FetchAction::Settle { discard, .. } => assert_eq!(discard, Some("placeholder.jar.part".to_string())),
        other => panic!("unexpected action {:?}", other),
    }
}

#[test]
fn metadata_endpoint_is_looked_up_first() {
    let url = "https://www.curseforge.com/api/v1/mods/123/files/456/download";
    let a = artifact("123-456.jar", &[url], "", "none");
    let f = Fetcher::new(&a, false).handle(absent());
    match f.pending() {
        FetchAction::Lookup { url } => {
            assert_eq!(url, "https://www.curseforge.com/api/v1/mods/123/files/456")
        }
        other => panic!("unexpected action {:?}", other),
    }
    let f = f.handle(FetchEvent::Lookup(LookupResult::Named("Real: Name.jar".to_string())));
    match f.pending() {
        FetchAction::Probe { filename, .. } => assert_eq!(filename, "Real_ Name.jar"),
        other => panic!("unexpected action {:?}", other),
    }
    let f = f.handle(absent());
    match f.pending() {
        FetchAction::Download { url: u, temp, .. } => {
            assert_eq!(u, url);
            assert_eq!(temp, "Real_ Name.jar.part");
        }
        other => panic!("unexpected action {:?}", other),
    }
}

#[test]
fn looked_up_name_already_present_is_skipped() {
    let url = "https://www.curseforge.com/api/v1/mods/123/files/456/download";
    let a = artifact("123-456.jar", &[url], "", "none");
    let f = Fetcher::new(&a, false)
        .handle(absent())
        .handle(FetchEvent::Lookup(LookupResult::Named("real.jar".to_string())))
        .handle(FetchEvent::Existing { present: true, digest: String::new() });
    assert!(matches!(f.outcome(), Some(TransferOutcome::Skipped(SkipReason::AlreadyPresent))));
}

#[test]
fn looked_up_resource_pack_is_skipped() {
    let url = "https://www.curseforge.com/api/v1/mods/123/files/456/download";
    let a = artifact("123-456.jar", &[url], "", "none");
    let f = Fetcher::new(&a, false)
        .handle(absent())
        .handle(FetchEvent::Lookup(LookupResult::Named("textures.zip".to_string())));
    assert!(matches!(f.outcome(), Some(TransferOutcome::Skipped(SkipReason::ResourcePack))));
    match f.pending() {
        FetchAction::Settle { discard, .. } => assert!(discard.is_none()),
        other => panic!("unexpected action {:?}", other),
    }
}

#[test]
fn rejected_lookup_puts_a_synthesized_mirror_first() {
    let url = "https://www.curseforge.com/api/v1/mods/123/files/456/download";
    let a = artifact("123-456.jar", &[url], "", "none");
    let f = Fetcher::new(&a, false)
        .handle(absent())
        .handle(FetchEvent::Lookup(LookupResult::Rejected));
    match f.pending() {
        FetchAction::Download { url, .. } => {
            assert_eq!(url, "https://www.cursemaven.com/curse/maven/O-123/456/dummy.jar")
        }
        other => panic!("unexpected action {:?}", other),
    }
    let f = f.handle(FetchEvent::TransferFailed("404".to_string())).handle(FetchEvent::Waited);
    match f.pending() {
        FetchAction::Download { url: u, .. } => assert_eq!(u, url),
        other => panic!("unexpected action {:?}", other),
    }
}

#[test]
fn every_failed_lookup_puts_the_synthesized_mirror_first() {
    let url = "https://www.curseforge.com/api/v1/mods/238222/files/4712345/download";
    let a = artifact("238222-4712345.jar", &[url], "", "none");
    for result in [LookupResult::Unreachable, LookupResult::Malformed, LookupResult::Rejected] {
        let f = Fetcher::new(&a, false).handle(absent()).handle(FetchEvent::Lookup(result));
        match f.pending() {
            FetchAction::Download { url: u, temp, .. } => {
                assert_eq!(u, "https://www.cursemaven.com/curse/maven/O-238222/4712345/dummy.jar");
                assert_eq!(temp, "238222-4712345.jar.part");
            }
            other => panic!("unexpected action {:?}", other),
        }
        let f = f.handle(FetchEvent::TransferFailed("404".to_string()));
        match f.pending() {
            FetchAction::Backoff { millis, .. } => assert_eq!(millis, 500),
            other => panic!("unexpected action {:?}", other),
        }
        match f.handle(FetchEvent::Waited).pending() {
            FetchAction::Download { url: u, .. } => assert_eq!(u, url),
            other => panic!("unexpected action {:?}", other),
        }
    }
}

#[test]
fn failed_lookup_without_identifiers_keeps_the_sources() {
    let url = "https://www.curseforge.com/api/v1/download";
    let a = artifact("x.jar", &[url, "https://b.test/x.jar"], "", "none");
    for result in [LookupResult::Unreachable, LookupResult::Malformed, LookupResult::Rejected] {
        let f = Fetcher::new(&a, false).handle(absent()).handle(FetchEvent::Lookup(result));
        match f.pending() {
            FetchAction::Download { url: u, temp, .. } => {
                assert_eq!(u, url);
                assert_eq!(temp, "x.jar.part");
            }
            other => panic!("unexpected action {:?}", other),
        }
    }
}

#[test]
fn failed_finalize_fails_the_artifact() {
    let a = artifact("example.jar", &["https://a.test/1", "https://b.test/2"], "", "none");
    let f = Fetcher::new(&a, false)
        .handle(absent())
        .handle(transferred("https://a.test/1", b"abc", DigestAlgorithm::Disabled))
        .handle(FetchEvent::FinalizeFailed("disk full".to_string()));
    match f.outcome() {
        Some(TransferOutcome::Failed(FailureCause::Storage(detail))) => assert_eq!(detail, "disk full"),
        other => panic!("unexpected outcome {:?}", other),
    }
    match f.pending() {
        FetchAction::Settle { discard, .. } => assert_eq!(discard, Some("example.jar.part".to_string())),
        other => panic!("unexpected action {:?}", other),
    }
}

fn renaming() -> Fetcher {
    let a = artifact("CF-Project-7.jar", &["https://a.test/dl"], "", "none");
    let meta = ModMetadata {
        name: Some("Cool Mod".to_string()),
        version: Some("1.2.3".to_string()),
        mod_id: Some("cool".to_string()),
    };
    Fetcher::new(&a, false)
        .handle(absent())
        .handle(transferred("https://a.test/dl", b"abc", DigestAlgorithm::Disabled))
        .handle(FetchEvent::Finalized)
        .handle(FetchEvent::Embedded(Some(meta)))
}

#[test]
fn synthesized_name_is_enriched_from_embedded_metadata() {
    let a = artifact("CF-Project-7.jar", &["https://a.test/dl"], "", "none");
    let f = Fetcher::new(&a, false)
        .handle(absent())
        .handle(transferred("https://a.test/dl", b"abc", DigestAlgorithm::Disabled))
        .handle(FetchEvent::Finalized);
    match f.pending() {
        FetchAction::ReadMetadata { filename } => assert_eq!(filename, "CF-Project-7.jar"),
        other => panic!("unexpected action {:?}", other),
    }
    match renaming().pending() {
        FetchAction::Rename { from, to } => {
            assert_eq!(from, "CF-Project-7.jar");
            assert_eq!(to, "Cool Mod-1.2.3.jar");
        }
        other => panic!("unexpected action {:?}", other),
    }
    match renaming().handle(FetchEvent::Renamed(true)).outcome() {
        Some(TransferOutcome::Completed { filename, bytes }) => {
            assert_eq!(filename, "Cool Mod-1.2.3.jar");
            assert_eq!(bytes, 3);
        }
        other => panic!("unexpected outcome {:?}", other),
    }
}

#[test]
fn failed_enrichment_keeps_the_artifact_completed() {
    match renaming().handle(FetchEvent::Renamed(false)).outcome() {
        Some(TransferOutcome::Completed { filename, .. }) => assert_eq!(filename, "CF-Project-7.jar"),
        other => panic!("unexpected outcome {:?}", other),
    }
    let a = artifact("CF-Project-7.jar", &["https://a.test/dl"], "", "none");
    let f = Fetcher::new(&a, false)
        .handle(absent())
        .handle(transferred("https://a.test/dl", b"abc", DigestAlgorithm::Disabled))
        .handle(FetchEvent::Finalized)
        .handle(FetchEvent::Embedded(None));
    match f.outcome() {
        Some(TransferOutcome::Completed { filename, .. }) => assert_eq!(filename, "CF-Project-7.jar"),
        other => panic!("unexpected outcome {:?}", other),
    }
}

#[test]
fn metadata_without_a_name_falls_back_to_the_artifact_name() {
    let a = artifact("CF-Project-7.jar", &["https://a.test/dl"], "", "none");
    let meta = ModMetadata { name: None, version: None, mod_id: None };
    let f = Fetcher::new(&a, false)
        .handle(absent())
        .handle(transferred("https://a.test/dl", b"abc", DigestAlgorithm::Disabled))
        .handle(FetchEvent::Finalized)
        .handle(FetchEvent::Embedded(Some(meta)));
    match f.pending() {
        FetchAction::Rename { to, .. } => assert_eq!(to, "Example Mod-unknown.jar"),
        other => panic!("unexpected action {:?}", other),
    }
}

#[test]
fn events_that_answer_nothing_are_ignored() {
    let a = artifact("example.jar", &["https://a.test/1"], "", "none");
    let f = Fetcher::new(&a, false)
        .handle(FetchEvent::Waited)
        .handle(FetchEvent::Finalized)
        .handle(FetchEvent::Renamed(true))
        .handle(FetchEvent::TransferFailed("early".to_string()))
        .handle(FetchEvent::Lookup(LookupResult::Rejected));
    assert!(matches!(f.pending(), FetchAction::Probe { .. }));
    let done = Fetcher::new(&a, false)
        .handle(FetchEvent::Existing { present: true, digest: String::new() })
        .handle(absent())
        .handle(FetchEvent::TransferFailed("late".to_string()));
    assert!(matches!(done.outcome(), Some(TransferOutcome::Skipped(SkipReason::AlreadyPresent))));
}

#[test]
fn backoff_grows_by_half_a_second_per_mirror() {
    let urls = ["https://a/1", "https://a/2", "https://a/3", "https://a/4", "https://a/5"];
    let a = artifact("example.jar", &urls, "", "none");
    let mut f = Fetcher::new(&a, false).handle(absent());
    let mut delays: Vec<u64> = Vec::new();
    while !f.is_settled() {
        match f.pending() {
            FetchAction::Download { .. } => f = f.handle(FetchEvent::TransferFailed("down".to_string())),
            FetchAction::Backoff { millis, .. } => {
                delays.push(millis);
                f = f.handle(FetchEvent::Waited);
            }
            other => panic!("unexpected action {:?}", other),
        }
    }
    assert_eq!(delays, vec![500, 1000, 1500, 2000]);
    assert!(matches!(f.outcome(), Some(TransferOutcome::Failed(FailureCause::Exhausted(_)))));
}
