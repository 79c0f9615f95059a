use ntnu_course_bot::captcha::{begins_like_container, CaptchaServiceError, CaptchaSolver};
use ntnu_course_bot::exchange::{Expect, Failure, Method, Payload, Reply};

fn solver() -> CaptchaSolver {
    CaptchaSolver::new("http://localhost:8080".to_owned())
}

fn texts(items: &[&str]) -> Vec<String> {
    items.iter().map(|s| s.to_string()).collect()
}

fn groups(items: &[Option<&str>]) -> Vec<Option<String>> {
    items.iter().map(|g| g.map(|s| s.to_string())).collect()
}

#[test]
fn test_captcha_process() -> Result<(), CaptchaServiceError> {
    let solver = CaptchaSolver::new("".to_owned());
    let testcases = vec![
        (vec!["asdf".to_string()], "asdf"),
        (vec!["lxzz".to_string(), "1+2".to_string()], "3"),
        (vec!["lxzz".to_string(), "1-2".to_string()], "-1"),
        (vec!["lxzz".to_string(), "2x2".to_string()], "4"),
    ];
    for testcase in testcases {
        println!("running testcase {:?} ,ans: {:?}", testcase.0, testcase.1);
        let ans = solver.process(testcase.0)?;
        assert_eq!(testcase.1, ans);
    }
    Ok(())
}

#[test]
fn process_of_no_candidate_has_no_viable_answer() {
    assert_eq!(solver().process(Vec::new()), Err(CaptchaServiceError::NoneErr));
}

#[test]
fn process_prefers_a_challenge_to_a_later_guess() {
    assert_eq!(solver().process(texts(&["9x9", "zzzz"])), Ok("81".to_string()));
    assert_eq!(solver().process(texts(&["aaaa", "0-9", "zzzz"])), Ok("-9".to_string()));
}

#[test]
fn process_takes_the_first_of_two_challenges() {
    assert_eq!(solver().process(texts(&["4+4", "1+1"])), Ok("8".to_string()));
}

#[test]
fn process_finds_a_challenge_inside_a_candidate() {
    assert_eq!(solver().process(texts(&["ab3+4=?"])), Ok("7".to_string()));
}

#[test]
fn process_without_challenge_takes_the_last_guess() {
    assert_eq!(solver().process(texts(&["first", "second", "third"])), Ok("third".to_string()));
}

#[test]
fn process_ignores_an_operator_it_does_not_know() {
    assert_eq!(solver().process(texts(&["1*2"])), Ok("1*2".to_string()));
}

#[test]
fn evaluate_computes_each_operator() {
    assert_eq!(
        CaptchaSolver::evaluate(&groups(&[Some("7+8"), Some("7"), Some("+"), Some("8")])),
        Ok("15".to_string())
    );
    assert_eq!(
        CaptchaSolver::evaluate(&groups(&[Some("0-0"), Some("0"), Some("-"), Some("0")])),
        Ok("0".to_string())
    );
    assert_eq!(
        CaptchaSolver::evaluate(&groups(&[None, Some("12"), Some("x"), Some("12")])),
        Ok("144".to_string())
    );
}

#[test]
fn evaluate_does_not_overflow() {
    assert_eq!(
        CaptchaSolver::evaluate(&groups(&[None, Some("2147483647"), Some("x"), Some("2147483647")])),
        Ok("4611686014132420609".to_string())
    );
    assert_eq!(
        CaptchaSolver::evaluate(&groups(&[None, Some("0"), Some("-"), Some("2147483647")])),
        Ok("-2147483647".to_string())
    );
}

#[test]
fn evaluate_reports_the_operand_that_is_no_number() {
    assert_eq!(
        CaptchaSolver::evaluate(&groups(&[None, Some("a"), Some("+"), Some("1")])),
        Err(CaptchaServiceError::ParseIntErr("a".to_string()))
    );
    assert_eq!(
        CaptchaSolver::evaluate(&groups(&[None, Some("1"), Some("+"), Some("2147483648")])),
        Err(CaptchaServiceError::ParseIntErr("2147483648".to_string()))
    );
    assert_eq!(
        CaptchaSolver::evaluate(&groups(&[None, Some(""), Some("+"), Some("1")])),
        Err(CaptchaServiceError::ParseIntErr("".to_string()))
    );
}

#[test]
fn evaluate_rejects_a_match_of_another_shape() {
    assert_eq!(CaptchaSolver::evaluate(&groups(&[])), Err(CaptchaServiceError::InvalidErr));
    assert_eq!(
        CaptchaSolver::evaluate(&groups(&[None, None, Some("+"), Some("1")])),
        Err(CaptchaServiceError::InvalidErr)
    );
    assert_eq!(
        CaptchaSolver::evaluate(&groups(&[None, Some("1"), None, Some("1")])),
        Err(CaptchaServiceError::InvalidErr)
    );
    assert_eq!(
        CaptchaSolver::evaluate(&groups(&[None, Some("1"), Some("+")])),
        Err(CaptchaServiceError::InvalidErr)
    );
    assert_eq!(
        CaptchaSolver::evaluate(&groups(&[None, Some("1"), Some("/"), Some("1")])),
        Err(CaptchaServiceError::InvalidErr)
    );
    assert_eq!(
        CaptchaSolver::evaluate(&groups(&[None, Some("1"), Some("++"), Some("1")])),
        Err(CaptchaServiceError::InvalidErr)
    );
}

#[test]
fn select_goes_by_the_matches_it_is_given() {
    let found = vec![None, Some(groups(&[Some("2x3"), Some("2"), Some("x"), Some("3")]))];
    assert_eq!(CaptchaSolver::select(&found, &texts(&["2x3", "none"])), Ok("6".to_string()));
    let nothing = vec![None, None];
    assert_eq!(CaptchaSolver::select(&nothing, &texts(&["2x3", "none"])), Ok("none".to_string()));
    assert_eq!(CaptchaSolver::select(&Vec::new(), &Vec::new()), Err(CaptchaServiceError::NoneErr));
}

#[test]
fn recognize_reads_each_report() {
    let s = solver();
    assert_eq!(s.recognize(Reply::Solver { status: 200, answers: Some(texts(&["lxzz", "3x3"])) }), Ok("9".to_string()));
    assert_eq!(s.recognize(Reply::Solver { status: 200, answers: Some(Vec::new()) }), Err(CaptchaServiceError::NoneErr));
    assert_eq!(s.recognize(Reply::Solver { status: 503, answers: None }), Err(CaptchaServiceError::HttpErr(503)));
    assert_eq!(s.recognize(Reply::Solver { status: 200, answers: None }), Err(CaptchaServiceError::InvalidErr));
    assert_eq!(
        s.recognize(Reply::Failed(Failure::Connect)),
        Err(CaptchaServiceError::ReqwestErr(Failure::Connect))
    );
    assert_eq!(s.recognize(Reply::Done), Err(CaptchaServiceError::InvalidErr));
    assert_eq!(
        s.recognize(Reply::Solver { status: 201, answers: Some(texts(&["1+1"])) }),
        Err(CaptchaServiceError::HttpErr(201))
    );
    assert_eq!(
        s.recognize(Reply::Solver { status: 404, answers: Some(texts(&["1+1"])) }),
        Err(CaptchaServiceError::HttpErr(404))
    );
}

#[test]
fn solve_request_sniffs_the_content_type() {
    let png: Vec<u8> = vec![0x89, 0x50, 0x4E, 0x47, 0x0D, 0x0A, 0x1A, 0x0A, 0, 0, 0, 0];
    let request = solver().solve_request(&png).expect("a PNG is a known kind");
    assert_eq!(request.method, Method::Post);
    assert_eq!(request.url, "http://localhost:8080/solve");
    assert_eq!(
        request.payload,
        Payload::Raw { content_type: "image/png".to_string(), bytes: png.clone() }
    );
    assert_eq!(request.expect, Expect::Answers);
    assert!(request.query.is_empty());
    assert_eq!(request.referer, None);
    assert_eq!(request.user_agent, None);

    let jpeg: Vec<u8> = vec![0xFF, 0xD8, 0xFF, 0xAA];
    let request = solver().solve_request(&jpeg).expect("a JPEG is a known kind");
    assert_eq!(
        request.payload,
        Payload::Raw { content_type: "image/jpeg".to_string(), bytes: jpeg.clone() }
    );
}

#[test]
fn solve_request_has_nothing_for_unknown_bytes() {
    assert_eq!(solver().solve_request(&[1, 2, 3, 4]), None);
    assert_eq!(solver().solve_request(&[]), None);
}

#[test]
fn solve_request_as_takes_the_type_it_is_given() {
    let request = solver().solve_request_as("image/gif".to_string(), &[7, 7]);
    assert_eq!(request.url, "http://localhost:8080/solve");
    assert_eq!(
        request.payload,
        Payload::Raw { content_type: "image/gif".to_string(), bytes: vec![7, 7] }
    );
}

fn zip_with_first_name(name: &[u8]) -> Vec<u8> {
    let mut bytes = vec![0x50, 0x4B, 0x03, 0x04];
    bytes.extend_from_slice(&[0u8; 26]);
    bytes.extend_from_slice(name);
    bytes.extend_from_slice(&[0u8; 40]);
    bytes
}

#[test]
fn containers_are_told_by_their_first_bytes() {
    assert!(begins_like_container(&[0x50, 0x2A, 0x4D, 0x18, 0xF8, 0xFF, 0xFF, 0xFF]));
    assert!(begins_like_container(&[0x5F, 0x2A, 0x4D, 0x18]));
    assert!(begins_like_container(&[0xD0, 0xCF, 0x11, 0xE0, 0xA1, 0xB1, 0x1A, 0xE1, 0x00]));
    assert!(begins_like_container(&[0xD0, 0xCF, 0x11, 0xE0, 0xA1, 0xB1, 0x1A, 0xE1]));
    assert!(begins_like_container(&zip_with_first_name(b"[Content_Types].xml")));
    assert!(begins_like_container(&zip_with_first_name(b"_rels/.rels")));
    assert!(begins_like_container(&zip_with_first_name(b"docProps/app.xml")));
    let mut short = zip_with_first_name(b"docProps");
    short.truncate(38);
    assert!(begins_like_container(&short));
    short.truncate(37);
    assert!(!begins_like_container(&short));
    assert!(!begins_like_container(&[]));
    assert!(!begins_like_container(&[0x50, 0x4B, 0x03, 0x04]));
    assert!(!begins_like_container(&zip_with_first_name(b"mimetypeimage/openraster")));
    assert!(!begins_like_container(&zip_with_first_name(b"word/document.xml")));
    assert!(!begins_like_container(&zip_with_first_name(b"[Content_Types].xmx")));
    let mut other = zip_with_first_name(b"docProps");
    other[3] = 0x05;
    assert!(!begins_like_container(&other));
    assert!(!begins_like_container(&[0x60, 0x2A, 0x4D, 0x18]));
    assert!(!begins_like_container(&[0x4F, 0x2A, 0x4D, 0x18]));
    assert!(!begins_like_container(&[0xD0, 0xCF, 0x11, 0xE0, 0xA1, 0xB1, 0x1A]));
    assert!(!begins_like_container(&[0xD0, 0xCF, 0x11, 0xE0, 0xA1, 0xB1, 0x1A, 0xE0]));
    assert!(!begins_like_container(&[0x89, 0x50, 0x4E, 0x47, 0x0D, 0x0A, 0x1A, 0x0A]));
    assert!(!begins_like_container(&[0x28, 0xB5, 0x2F, 0xFD]));
}

#[test]
fn solve_request_has_nothing_for_a_container() {
    assert_eq!(solver().solve_request(&[0x50, 0x2A, 0x4D, 0x18, 0xF8, 0xFF, 0xFF, 0xFF]), None);
    assert_eq!(solver().solve_request(&zip_with_first_name(b"[Content_Types].xml")), None);
    assert_eq!(solver().solve_request(&zip_with_first_name(b"_rels/.rels")), None);
    assert_eq!(solver().solve_request(&zip_with_first_name(b"docProps/core.xml")), None);
    let mut compound = vec![0xD0, 0xCF, 0x11, 0xE0, 0xA1, 0xB1, 0x1A, 0xE1];
    compound.extend_from_slice(&[0u8; 600]);
    assert_eq!(solver().solve_request(&compound), None);
}

#[test]
fn solve_request_sniffs_an_image_inside_a_zip_archive() {
    let ora = zip_with_first_name(b"mimetypeimage/openraster");
    let request = solver().solve_request(&ora).expect("OpenRaster is a known kind");
    assert_eq!(
        request.payload,
        Payload::Raw { content_type: "image/openraster".to_string(), bytes: ora.clone() }
    );
    let plain = zip_with_first_name(b"readme.txt");
    let request = solver().solve_request(&plain).expect("a ZIP archive is a known kind");
    assert_eq!(
        request.payload,
        Payload::Raw { content_type: "application/zip".to_string(), bytes: plain.clone() }
    );
}
