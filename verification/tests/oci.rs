use pharia_kernel::oci::{
    after_pull, is_skill_not_found, trim_matches_slash, DigestOutcome, LoadStep, OciErrorCode,
    OciFailure, OciRegistry, PullOutcome, RegistryError, SkillImage,
};

#[test]
fn oci_registry_sanitizes_base_repository_input() {
    let registry = OciRegistry::new(
        "127.0.0.1:6000".to_owned(),
        Some("/skills/".to_owned()),
        "dummy-user".to_owned(),
        "dummy-password".to_owned(),
    );

    assert_eq!(registry.base_repository.unwrap(), "skills");
}

#[test]
fn oci_registry_handles_empty_base_repository() {
    let skill_name = "skill";
    let registry = OciRegistry::new(
        "127.0.0.1:6000".to_owned(),
        Some(String::new()),
        "dummy-user".to_owned(),
        "dummy-password".to_owned(),
    );

    let reference = registry.reference(skill_name, "tag");

    assert_eq!(reference.repository(), skill_name);
}

#[test]
fn oci_registry_without_base_repository() {
    let skill_name = "skill";
    let registry = OciRegistry::new(
        "127.0.0.1:6000".to_owned(),
        None,
        "dummy-user".to_owned(),
        "dummy-password".to_owned(),
    );

    let reference = registry.reference(skill_name, "tag");

    assert_eq!(reference.repository(), skill_name);
}

#[test]
fn skills_live_below_the_base_repository() {
    let registry = OciRegistry::new(
        "registry.example.com".to_owned(),
        Some("//engineering/skills//".to_owned()),
        "user".to_owned(),
        "secret".to_owned(),
    );

    let reference = registry.reference("greet", "v1");

    assert_eq!(reference.registry, "registry.example.com");
    assert_eq!(reference.repository(), "engineering/skills/greet");
    assert_eq!(reference.tag, "v1");
    assert_eq!(
        registry.auth(),
        ("user".to_owned(), "secret".to_owned())
    );
}

#[test]
fn slashes_are_trimmed_at_both_ends_only() {
    assert_eq!(trim_matches_slash("/a/b/"), "a/b");
    assert_eq!(trim_matches_slash("///"), "");
    assert_eq!(trim_matches_slash(""), "");
    assert_eq!(trim_matches_slash("a"), "a");
    assert_eq!(trim_matches_slash("/é/"), "é");
}

#[test]
fn missing_manifests_mean_the_skill_is_not_there() {
    assert!(is_skill_not_found(&OciFailure::ImageManifestNotFound));
    assert!(is_skill_not_found(&OciFailure::Registry {
        codes: vec![OciErrorCode::NameUnknown, OciErrorCode::ManifestUnknown]
    }));
    assert!(!is_skill_not_found(&OciFailure::Registry {
        codes: vec![OciErrorCode::Unauthorized]
    }));
    assert!(!is_skill_not_found(&OciFailure::Other));
}

#[test]
fn pulled_images_are_skills_or_need_their_digest() {
    assert_eq!(
        after_pull(PullOutcome::Pulled {
            binary: vec![0, 97, 115, 109],
            digest: Some("sha256:abc".to_owned())
        }),
        LoadStep::Done(Ok(Some(SkillImage {
            binary: vec![0, 97, 115, 109],
            digest: "sha256:abc".to_owned()
        })))
    );
    assert_eq!(
        after_pull(PullOutcome::Pulled {
            binary: vec![1],
            digest: None
        }),
        LoadStep::FetchDigest { binary: vec![1] }
    );
    assert_eq!(
        after_pull(PullOutcome::Failed {
            failure: OciFailure::ImageManifestNotFound,
            text: "not found".to_owned()
        }),
        LoadStep::Done(Ok(None))
    );
    assert_eq!(
        after_pull(PullOutcome::Failed {
            failure: OciFailure::Other,
            text: "connection refused".to_owned()
        }),
        LoadStep::Done(Err(RegistryError::SkillRetrievalError(
            "connection refused".to_owned()
        )))
    );
}

#[test]
fn digests_fetched_afterwards() {
    let registry = OciRegistry::new(
        "registry.example.com".to_owned(),
        None,
        "user".to_owned(),
        "secret".to_owned(),
    );
    assert_eq!(
        registry.after_digest("greet", "v1", vec![1], DigestOutcome::Found("d".to_owned())),
        Ok(Some(SkillImage {
            binary: vec![1],
            digest: "d".to_owned()
        }))
    );
    assert_eq!(
        registry.after_digest(
            "greet",
            "v1",
            vec![1],
            DigestOutcome::Failed {
                failure: OciFailure::ImageManifestNotFound,
                text: "gone".to_owned()
            }
        ),
        Err(RegistryError::DigestShouldExist {
            name: "greet".to_owned(),
            tag: "v1".to_owned(),
            registry: "registry.example.com".to_owned()
        })
    );
    assert_eq!(
        registry.after_digest(
            "greet",
            "v1",
            vec![1],
            DigestOutcome::Failed {
                failure: OciFailure::Other,
                text: "boom".to_owned()
            }
        ),
        Err(RegistryError::DigestRetrievalError("boom".to_owned()))
    );
}
