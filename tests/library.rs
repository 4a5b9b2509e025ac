use oci_distribution::auth::{scope_for, select_token, token_request, token_response};
use oci_distribution::manifest::{generate_manifest, validate_image_manifest, validate_layers};
use oci_distribution::push::{end_push_url, plan_layer_uploads, push_layer_plan};
use oci_distribution::response::{classify_status, digest_header_value, StatusClass};
use oci_distribution::volume_mount::{MountTransition, Phase};
use oci_distribution::{
    AuthError, BearerChallenge, Client, ClientConfig, ClientProtocol, ImageData, ImageLayer,
    OciDescriptor, OciError, OciManifest, Reference, ReferenceError, RegistryOperation,
    RegistryToken, Versioned, VolumeMount,
};

fn descriptor(media_type: &str) -> OciDescriptor {
    OciDescriptor {
        media_type: media_type.to_string(),
        digest: "sha256:00".to_string(),
        size: 1,
        annotations: None,
    }
}

fn manifest_with_layers(types: &[&str]) -> OciManifest {
    OciManifest {
        schema_version: 2,
        media_type: None,
        config: descriptor("application/vnd.wasm.config.v1+json"),
        layers: types.iter().map(|t| descriptor(t)).collect(),
        annotations: None,
    }
}

fn https_except_local() -> Client {
    Client::new(ClientConfig {
        protocol: ClientProtocol::HttpsExcept(vec![
            "localhost".to_string(),
            "oci.registry.local".to_string(),
        ]),
    })
}

#[test]
fn scheme_follows_protocol() {
    assert_eq!(ClientProtocol::Http.scheme_for("a.io"), "http");
    assert_eq!(ClientProtocol::Https.scheme_for("a.io"), "https");
    let p = ClientProtocol::HttpsExcept(vec!["localhost".to_string()]);
    assert_eq!(p.scheme_for("localhost"), "http");
    assert_eq!(p.scheme_for("localhost:5000"), "https");
    assert_eq!(ClientProtocol::HttpsExcept(vec![]).scheme_for("localhost"), "https");
    assert_eq!(ClientProtocol::default(), ClientProtocol::Https);
}

#[test]
fn exception_list_scenario() {
    let c = https_except_local();
    let local = Reference::parse("oci.registry.local/hello:v1").unwrap();
    let remote = Reference::parse("webassembly.azurecr.io/hello:v1").unwrap();
    assert_eq!(c.to_v2_manifest_url(&local), "http://oci.registry.local/v2/hello/manifests/v1");
    assert_eq!(
        c.to_v2_manifest_url(&remote),
        "https://webassembly.azurecr.io/v2/hello/manifests/v1"
    );
}

#[test]
fn reference_parts() {
    let r = Reference::parse("localhost:5000/org/app:v2@sha256:abc").unwrap();
    assert_eq!(r.registry(), "localhost:5000");
    assert_eq!(r.repository(), "org/app");
    assert_eq!(r.tag(), Some("v2"));
    assert_eq!(r.digest(), Some("sha256:abc"));
    let r: Reference = "a.io/b".parse().unwrap();
    assert_eq!(r.tag(), None);
    assert_eq!(r.digest(), None);
}

#[test]
fn reference_errors() {
    assert_eq!(Reference::parse("hello-wasm").unwrap_err(), ReferenceError::MissingSlash);
    assert_eq!(Reference::parse("/hello").unwrap_err(), ReferenceError::EmptyRegistry);
    assert_eq!(Reference::parse("a.io/:v1").unwrap_err(), ReferenceError::EmptyRepository);
    assert_eq!(Reference::parse("a.io/").unwrap_err(), ReferenceError::EmptyRepository);
}

#[test]
fn base_url_and_location_rewriting() {
    let c = Client::default();
    let image = Reference::parse("webassembly.azurecr.io/hello-wasm:v1").unwrap();
    assert_eq!(c.to_v2_base_url("webassembly.azurecr.io"), "https://webassembly.azurecr.io/v2/");
    assert_eq!(
        c.location_header_to_url(&image, "/v2/hello-wasm/blobs/uploads/1?x=y"),
        "https://webassembly.azurecr.io/v2/hello-wasm/blobs/uploads/1?x=y"
    );
    assert_eq!(
        c.location_header_to_url(&image, "https://other.io/v2/upload"),
        "https://other.io/v2/upload"
    );
    assert_eq!(c.location_header_to_url(&image, "/v3/x"), "/v3/x");
}

#[test]
fn extract_location_outcomes() {
    let c = Client::new(ClientConfig { protocol: ClientProtocol::Http });
    let image = Reference::parse("oci.registry.local/hello-wasm:v1").unwrap();
    assert_eq!(
        c.extract_location_header(&image, 202, 202, Some("/v2/hello-wasm/blobs/uploads/u")),
        Ok("http://oci.registry.local/v2/hello-wasm/blobs/uploads/u".to_string())
    );
    assert_eq!(
        c.extract_location_header(&image, 202, 202, None),
        Err(OciError::MissingLocationHeader)
    );
    assert_eq!(
        c.extract_location_header(&image, 404, 201, Some("/v2/x")),
        Err(OciError::UnexpectedStatus(404))
    );
}

#[test]
fn status_classes() {
    assert_eq!(classify_status(200, 200), StatusClass::Expected);
    assert_eq!(classify_status(404, 200), StatusClass::ClientError);
    assert_eq!(classify_status(503, 200), StatusClass::ServerError);
    assert_eq!(classify_status(302, 200), StatusClass::Other);
    assert_eq!(classify_status(201, 202), StatusClass::Other);
}

#[test]
fn digest_header() {
    assert_eq!(digest_header_value(Some("sha256:ab")), Ok("sha256:ab".to_string()));
    assert_eq!(digest_header_value(None), Err(OciError::MissingDigestHeader));
}

#[test]
fn tokens_and_headers() {
    let mut c = Client::default();
    let image = Reference::parse("webassembly.azurecr.io/hello-wasm:v1").unwrap();
    assert!(!c.has_token("webassembly.azurecr.io"));
    let headers = c.auth_headers(&image);
    assert_eq!(headers.len(), 1);
    assert_eq!(headers[0].0, "Accept");
    assert!(headers[0].1.contains("application/vnd.oci.image.manifest.v1+json"));

    c.store_token("webassembly.azurecr.io", RegistryToken::new("first".to_string()));
    c.store_token("webassembly.azurecr.io", RegistryToken::new("abc".to_string()));
    c.store_token("other.io", RegistryToken::new("zzz".to_string()));
    assert!(c.has_token("webassembly.azurecr.io"));
    assert!(!c.has_token("webassembly.azurecr.io:443"));
    assert_eq!(c.token_for("webassembly.azurecr.io").unwrap().token, "abc");
    let headers = c.auth_headers(&image);
    assert_eq!(headers.len(), 2);
    assert_eq!(headers[1], ("Authorization".to_string(), "Bearer abc".to_string()));
}

#[test]
fn bearer_token_value() {
    assert_eq!(RegistryToken::new("t0k".to_string()).bearer_token(), "Bearer t0k");
}

#[test]
fn scopes() {
    assert_eq!(scope_for("hello-wasm", RegistryOperation::Pull), "repository:hello-wasm:pull");
    assert_eq!(
        scope_for("org/app", RegistryOperation::Push),
        "repository:org/app:pull,push"
    );
}

#[test]
fn token_request_decisions() {
    assert!(matches!(token_request(None, "r", RegistryOperation::Pull), Ok(None)));
    let full = BearerChallenge {
        realm: Some("https://auth.io/token".to_string()),
        service: Some("registry.io".to_string()),
        scope: None,
    };
    let req = token_request(Some(full), "hello", RegistryOperation::Push).unwrap().unwrap();
    assert_eq!(req.realm, "https://auth.io/token");
    assert_eq!(req.service, "registry.io");
    assert_eq!(req.scope, "repository:hello:pull,push");
    let no_realm = BearerChallenge { realm: None, service: Some("s".to_string()), scope: None };
    assert_eq!(
        token_request(Some(no_realm), "r", RegistryOperation::Pull).unwrap_err(),
        AuthError::MissingRealm
    );
    let no_service = BearerChallenge { realm: Some("u".to_string()), service: None, scope: None };
    assert_eq!(
        token_request(Some(no_service), "r", RegistryOperation::Pull).unwrap_err(),
        AuthError::MissingService
    );
}

#[test]
fn token_field_names() {
    assert_eq!(select_token(Some("a".to_string()), None).unwrap().token, "a");
    assert_eq!(select_token(None, Some("b".to_string())).unwrap().token, "b");
    assert_eq!(
        select_token(Some("a".to_string()), Some("b".to_string())).unwrap().token,
        "a"
    );
    assert!(select_token(None, None).is_none());
}

#[test]
fn token_response_outcomes() {
    let ok = token_response(200, Some(RegistryToken::new("x".to_string())), String::new());
    assert_eq!(ok.unwrap().token, "x");
    assert_eq!(
        token_response(200, None, "{}".to_string()).unwrap_err(),
        AuthError::UndecodableToken
    );
    assert_eq!(
        token_response(401, None, "denied".to_string()).unwrap_err(),
        AuthError::Rejected { status: 401, body: "denied".to_string() }
    );
}

#[test]
fn manifest_version_checks() {
    let v = |schema_version: u32, media_type: Option<&str>| Versioned {
        schema_version,
        media_type: media_type.map(|m| m.to_string()),
    };
    assert_eq!(validate_image_manifest(&v(2, None)), Ok(()));
    assert_eq!(
        validate_image_manifest(&v(2, Some("application/vnd.oci.image.manifest.v1+json"))),
        Ok(())
    );
    assert_eq!(
        validate_image_manifest(&v(1, None)),
        Err(OciError::UnsupportedSchemaVersion(1))
    );
    assert_eq!(
        validate_image_manifest(&v(3, Some("application/vnd.oci.image.manifest.v1+json"))),
        Err(OciError::UnsupportedSchemaVersion(3))
    );
    let list = "application/vnd.docker.distribution.manifest.list.v2+json";
    assert_eq!(
        validate_image_manifest(&v(2, Some(list))),
        Err(OciError::UnsupportedMediaType(list.to_string()))
    );
}

#[test]
fn layer_acceptance() {
    let wasm = "application/vnd.wasm.content.layer.v1+wasm";
    let m = manifest_with_layers(&[wasm]);
    assert_eq!(validate_layers(&m, &vec![wasm]), Ok(()));
    assert_eq!(
        validate_layers(&m, &vec![]),
        Err(OciError::IncompatibleLayerMediaType(wasm.to_string()))
    );
    assert_eq!(
        validate_layers(&m, &vec!["text/plain"]),
        Err(OciError::IncompatibleLayerMediaType(wasm.to_string()))
    );
    let mixed = manifest_with_layers(&[wasm, "text/plain"]);
    assert_eq!(
        validate_layers(&mixed, &vec![wasm]),
        Err(OciError::IncompatibleLayerMediaType("text/plain".to_string()))
    );
    assert_eq!(validate_layers(&manifest_with_layers(&[]), &vec![wasm]), Err(OciError::NoLayers));
}

#[test]
fn push_cursor_scenario() {
    let layers = vec![
        ImageLayer::oci_v1(vec![1u8; 21]),
        ImageLayer::oci_v1(vec![2u8; 24]),
        ImageLayer::oci_v1(vec![3u8; 13]),
    ];
    let plans = plan_layer_uploads(&layers).unwrap();
    let starts: Vec<usize> = plans.iter().map(|p| p.start_byte).collect();
    assert_eq!(starts, vec![0, 21, 45]);
    assert_eq!(plans[2].next_byte, 58);
    assert_eq!(plans[0].content_range, "0-20");
    assert_eq!(plans[1].content_range, "21-44");
    assert_eq!(plans[2].content_range, "45-57");
    assert_eq!(plans[1].content_length, "24");
}

#[test]
fn push_layer_ranges() {
    let p = push_layer_plan(0, 21).unwrap();
    assert_eq!(p.next_byte, 21);
    assert_eq!(p.content_range, "0-20");
    assert_eq!(p.content_length, "21");
    let p = push_layer_plan(1000, 1).unwrap();
    assert_eq!(p.content_range, "1000-1000");
    assert_eq!(p.next_byte, 1001);
    assert_eq!(push_layer_plan(5, 0).unwrap_err(), OciError::EmptyLayer);
}

#[test]
fn empty_layer_is_not_pushed() {
    let layers = vec![ImageLayer::oci_v1(b"abc".to_vec()), ImageLayer::oci_v1(vec![])];
    assert_eq!(plan_layer_uploads(&layers).unwrap_err(), OciError::EmptyLayer);
    assert_eq!(plan_layer_uploads(&vec![]).unwrap().len(), 0);
}

#[test]
fn session_end_url() {
    assert_eq!(
        end_push_url("http://r.io/v2/x/blobs/uploads/u?state=1", "sha256:ab"),
        "http://r.io/v2/x/blobs/uploads/u?state=1&digest=sha256:ab"
    );
}

#[test]
fn digest_shape() {
    let d = oci_distribution::sha256_digest(b"");
    assert_eq!(
        d,
        "sha256:e3b0c44298fc1c149afbf4c8996fb92427ae41e4649b934ca495991b7852b855"
    );
    assert!(d.starts_with("sha256:"));
    assert_eq!(d.len(), 71);
    assert!(d[7..].chars().all(|c| c.is_ascii_digit() || ('a'..='f').contains(&c)));
}

#[test]
fn image_digest_stored_or_computed() {
    let layers = vec![
        ImageLayer::new(b"hello".to_vec(), "a".to_string()),
        ImageLayer::new(b"bytes".to_vec(), "b".to_string()),
    ];
    let data = ImageData { layers: layers.clone(), digest: None };
    let expected = "sha256:fdbd95aafcbc814a2600fcc54c1e1706f52d2f9bf45cf53254f25bcd7599ce99";
    assert_eq!(data.sha256_digest(), expected);
    assert_eq!(data.digest(), expected);
    assert!(data.digest.is_none());
    assert_eq!(data.layers_data(), b"hellobytes".to_vec());
    let stored = ImageData { layers, digest: Some("sha256:stored".to_string()) };
    assert_eq!(stored.digest(), "sha256:stored");
    assert_eq!(stored.sha256_digest(), expected);
}

#[test]
fn layer_constructors() {
    let l = ImageLayer::oci_v1(b"x".to_vec());
    assert_eq!(l.media_type, "application/vnd.oci.image.layer.v1.tar");
    let g = ImageLayer::oci_v1_gzip(b"hellobytes".to_vec());
    assert_eq!(g.media_type, "application/vnd.oci.image.layer.v1.tar+gzip");
    assert_eq!(
        g.sha256_digest(),
        "sha256:fdbd95aafcbc814a2600fcc54c1e1706f52d2f9bf45cf53254f25bcd7599ce99"
    );
}

#[test]
fn generated_manifest() {
    let data = ImageData {
        layers: vec![
            ImageLayer::new(b"hello".to_vec(), "application/vnd.wasm.content.layer.v1+wasm".to_string()),
            ImageLayer::new(b"hellobytes".to_vec(), "text/plain".to_string()),
        ],
        digest: None,
    };
    let m = generate_manifest(&data, b"", "application/vnd.wasm.config.v1+json");
    assert_eq!(m.schema_version, 2);
    assert_eq!(m.media_type.as_deref(), Some("application/vnd.oci.image.manifest.v1+json"));
    assert_eq!(m.config.media_type, "application/vnd.wasm.config.v1+json");
    assert_eq!(m.config.size, 0);
    assert_eq!(
        m.config.digest,
        "sha256:e3b0c44298fc1c149afbf4c8996fb92427ae41e4649b934ca495991b7852b855"
    );
    assert_eq!(m.layers.len(), 2);
    assert_eq!(m.layers[1].size, 10);
    assert_eq!(m.layers[1].media_type, "text/plain");
    let d = "sha256:fdbd95aafcbc814a2600fcc54c1e1706f52d2f9bf45cf53254f25bcd7599ce99";
    assert_eq!(m.layers[1].digest, d);
    assert_eq!(
        m.layers[1].annotations,
        Some(vec![("org.opencontainers.image.title".to_string(), d.to_string())])
    );
    assert_eq!(m.layers[0].size, 5);
}

#[test]
fn volume_mount_transitions() {
    let s = VolumeMount::new();
    assert_eq!(s.json_status(), (Phase::Pending, "VolumeMount".to_string()));
    assert_eq!(s.next::<Vec<u32>>(Ok(vec![1, 2])), MountTransition::Run(vec![1, 2]));
    assert_eq!(
        VolumeMount::default().next::<Vec<u32>>(Err("no volume".to_string())),
        MountTransition::Error("no volume".to_string())
    );
}
