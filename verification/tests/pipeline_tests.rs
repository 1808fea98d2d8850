use memegrab::pipeline::{
    accept_resource, check_declared_length, collect_links, init_matcher, output_filename,
    read_headers, FatalError, FetchError, SkipReason,
};

fn png_bytes(total_len: usize) -> Vec<u8> {
    let mut v = vec![0x89u8, 0x50, 0x4e, 0x47, 0x0d, 0x0a, 0x1a, 0x0a];
    while v.len() < total_len {
        v.push(0xab);
    }
    v
}

fn jpeg_bytes(total_len: usize) -> Vec<u8> {
    let mut v = vec![0xffu8, 0xd8, 0xff];
    while v.len() < total_len {
        v.push(0xcd);
    }
    v
}

#[test]
fn empty_document_produces_no_candidates() {
    let out = collect_links(Ok("<html><body></body></html>".to_string())).unwrap();
    assert!(out.links.is_empty());
    assert!(out.malformed.is_empty());
}

#[test]
fn page_without_thumbnails_produces_no_candidates() {
    let page = r#"<html><body><a class="other" href="x">x</a></body></html>"#;
    let out = collect_links(Ok(page.to_string())).unwrap();
    assert!(out.links.is_empty());
    assert!(out.malformed.is_empty());
}

#[test]
fn unreachable_page_is_fatal_and_repeatably_so() {
    for _ in 0..3 {
        let out = collect_links(Err(FetchError {
            message: "connection refused".to_string(),
        }));
        assert_eq!(
            out,
            Err(FatalError::PageUnreachable {
                cause: "connection refused".to_string()
            })
        );
    }
}

#[test]
fn selection_excludes_pagination_control() {
    let page = r#"<html><body>
        <a class="memethumb" href="attachment/1/">one</a>
        <a class="memethumb" id="mememorelink" href="misc/memebox-more">more</a>
        <a class="memethumb" href="attachment/2/">two</a>
        </body></html>"#;
    let out = collect_links(Ok(page.to_string())).unwrap();
    assert_eq!(
        out.links,
        vec![
            "https://gbatemp.net/attachment/1/".to_string(),
            "https://gbatemp.net/attachment/2/".to_string(),
        ]
    );
    assert!(out.malformed.is_empty());
}

#[test]
fn thumbnail_without_href_is_reported_malformed() {
    let page = r#"<html><body>
        <span class="memethumb">no link</span>
        <a class="memethumb" href="attachment/9/">nine</a>
        </body></html>"#;
    let out = collect_links(Ok(page.to_string())).unwrap();
    assert_eq!(out.links, vec!["https://gbatemp.net/attachment/9/".to_string()]);
    assert_eq!(out.malformed.len(), 1);
    assert_eq!(out.malformed[0].id, None);
    assert_eq!(out.malformed[0].href, None);
}

#[test]
fn declared_length_over_maximum_is_skipped_before_body_read() {
    let r = check_declared_length(Some(20_000_000));
    assert_eq!(r, Err(SkipReason::DeclaredTooLarge { declared: 20_000_000 }));
}

#[test]
fn declared_length_at_or_under_maximum_passes() {
    assert_eq!(check_declared_length(Some(10_000_000)), Ok(()));
    assert_eq!(check_declared_length(Some(50_000)), Ok(()));
    assert_eq!(check_declared_length(None), Ok(()));
}

#[test]
fn missing_declared_length_still_accepts_valid_jpeg() {
    let matcher = init_matcher().unwrap();
    let headers = read_headers(&matcher, &None, &None);
    assert_eq!(headers.declared_len, None);
    assert_eq!(check_declared_length(headers.declared_len), Ok(()));
    let body = jpeg_bytes(1024);
    let img = accept_resource(headers.declared_len, body.clone()).unwrap();
    assert_eq!(img.bytes, body);
    assert_eq!(img.extension, "jpeg");
}

#[test]
fn nonzero_declared_length_must_match_actual_count() {
    let body = jpeg_bytes(4);
    let r = accept_resource(Some(5), body);
    assert_eq!(
        r,
        Err(SkipReason::SizeMismatch {
            declared: 5,
            actual: 4
        })
    );
}

#[test]
fn zero_declared_length_is_treated_as_unknown() {
    let body = jpeg_bytes(100);
    let img = accept_resource(Some(0), body).unwrap();
    assert_eq!(img.extension, "jpeg");
}

#[test]
fn bytes_without_image_signature_are_never_accepted() {
    let body = vec![0x01u8, 0x02, 0x03, 0x04];
    assert_eq!(accept_resource(Some(4), body.clone()), Err(SkipReason::NotAnImage));
    assert_eq!(accept_resource(None, body), Err(SkipReason::NotAnImage));
}

#[test]
fn reads_declared_metadata_from_header_values() {
    let matcher = init_matcher().unwrap();
    let headers = read_headers(
        &matcher,
        &Some("50000".to_string()),
        &Some("attachment; filename=meme.png".to_string()),
    );
    assert_eq!(headers.declared_len, Some(50_000));
    assert_eq!(headers.ext_hint, Some(".png".to_string()));
}

#[test]
fn unreadable_or_hintless_headers_degrade_to_none() {
    let matcher = init_matcher().unwrap();
    let headers = read_headers(
        &matcher,
        &Some("12a4".to_string()),
        &Some("inline".to_string()),
    );
    assert_eq!(headers.declared_len, None);
    assert_eq!(headers.ext_hint, None);
}

#[test]
fn composes_filename_from_index_and_extension() {
    assert_eq!(output_filename(0, "png"), "0.png");
    assert_eq!(output_filename(12, "jpeg"), "12.jpeg");
    assert_eq!(output_filename(3, "gif"), "3.gif");
}

#[test]
fn three_thumbnails_one_control_one_failure_one_png() {
    // The page holds three thumbnail elements: the pagination control, one
    // whose resource will fail to fetch, and one valid 50 KB PNG.
    let page = r#"<html><body>
        <a class="memethumb" id="mememorelink" href="misc/memebox-more">more</a>
        <a class="memethumb" href="attachment/404/">gone</a>
        <a class="memethumb" href="attachment/ok/">good</a>
        </body></html>"#;
    let matcher = init_matcher().unwrap();
    let extracted = collect_links(Ok(page.to_string())).unwrap();
    assert!(extracted.malformed.is_empty());
    let links = extracted.links;
    assert_eq!(
        links,
        vec![
            "https://gbatemp.net/attachment/404/".to_string(),
            "https://gbatemp.net/attachment/ok/".to_string(),
        ]
    );

    let mut state = memegrab::pipeline::RunState::new();
    let mut written: Vec<(String, Vec<u8>)> = Vec::new();
    let mut diagnostics: Vec<SkipReason> = Vec::new();
    for link in &links {
        // The embedding program would fetch each link; here the first one
        // fails with a status error and the second returns a 50 KB PNG.
        let fetched: Result<(Option<String>, Vec<u8>), String> = if link.contains("404") {
            Err("status 404".to_string())
        } else {
            Ok((Some("50000".to_string()), png_bytes(50_000)))
        };
        let (content_length, body) = match fetched {
            Ok(pair) => pair,
            Err(cause) => {
                diagnostics.push(SkipReason::FetchFailed { cause });
                continue;
            }
        };
        let headers = read_headers(&matcher, &content_length, &None);
        if let Err(reason) = check_declared_length(headers.declared_len) {
            diagnostics.push(reason);
            continue;
        }
        match accept_resource(headers.declared_len, body) {
            Ok(img) => {
                let name = output_filename(state.claim_index(), &img.extension);
                written.push((name, img.bytes));
            }
            Err(reason) => diagnostics.push(reason),
        }
    }
    assert_eq!(written.len(), 1);
    assert_eq!(written[0].0, "0.png");
    assert_eq!(written[0].1.len(), 50_000);
    assert_eq!(
        diagnostics,
        vec![SkipReason::FetchFailed {
            cause: "status 404".to_string()
        }]
    );
}

#[test]
fn indexes_are_assigned_in_acceptance_order() {
    let mut state = memegrab::pipeline::RunState::new();
    assert_eq!(state.next_index, 0);
    assert_eq!(state.claim_index(), 0);
    assert_eq!(state.claim_index(), 1);
    assert_eq!(state.claim_index(), 2);
    assert_eq!(state.next_index, 3);
}
