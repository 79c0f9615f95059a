//! Choosing the answer to a CAPTCHA among the guesses of the recognition
//! service.

use vstd::prelude::*;
use vstd::array::array_as_slice;
use vstd::slice::slice_to_vec;
use vstd::string::StringExecFns;
use crate::exchange::{
    text_view, Expect, Failure, HttpRequest, HttpRequestView, Method, Payload, PayloadView, Reply,
    ReplyView,
};
use crate::pattern::{
    capture_groups, captured, captures, found_view, group, groups_view, CALC_PATTERN,
};
use crate::text::{all_digits, chars_of, decimal, decimal_string, digits_value, parse_i32, views};

verus! {

/// Why no answer to a CAPTCHA could be had.
#[derive(Clone, Debug, PartialEq, Eq)]
pub enum CaptchaServiceError {
    /// The service answered with this status instead of 200.
    HttpErr(u16),
    /// The service could not be reached.
    ReqwestErr(Failure),
    /// The service had no candidate to offer.
    NoneErr,
    /// The service's answer, or a match inside a candidate, was not of the
    /// expected shape.
    InvalidErr,
    /// An operand of an arithmetic challenge was not a number; the text says
    /// what stood in its place.
    ParseIntErr(String),
}

/// [`CaptchaServiceError`] over sequences.
pub enum CaptchaServiceErrorView {
    HttpErr(u16),
    ReqwestErr(Failure),
    NoneErr,
    InvalidErr,
    ParseIntErr(Seq<char>),
}

impl View for CaptchaServiceError {
    type V = CaptchaServiceErrorView;

    open spec fn view(&self) -> CaptchaServiceErrorView {
        match self {
            CaptchaServiceError::HttpErr(status) => CaptchaServiceErrorView::HttpErr(*status),
            CaptchaServiceError::ReqwestErr(failure) => CaptchaServiceErrorView::ReqwestErr(
                *failure,
            ),
            CaptchaServiceError::NoneErr => CaptchaServiceErrorView::NoneErr,
            CaptchaServiceError::InvalidErr => CaptchaServiceErrorView::InvalidErr,
            CaptchaServiceError::ParseIntErr(text) => CaptchaServiceErrorView::ParseIntErr(text@),
        }
    }
}

/// The answer or the failure of the recognition, over sequences.
pub open spec fn answer_view(r: Result<String, CaptchaServiceError>) -> Result<
    Seq<char>,
    CaptchaServiceErrorView,
> {
    match r {
        Ok(answer) => Ok(answer@),
        Err(error) => Err(error@),
    }
}

/// The number an operand of an arithmetic challenge stands for: the value of
/// a non-empty run of decimal digits that fits 32 bits.
pub open spec fn operand(text: Seq<char>) -> Option<int> {
    if text.len() > 0 && all_digits(text) && digits_value(text) <= i32::MAX {
        Some(digits_value(text) as int)
    } else {
        None
    }
}

/// The answer to an arithmetic challenge, from the capture groups of its
/// match: the first operand, the operator and the second operand are groups
/// 1, 2 and 3; `x` multiplies.
pub open spec fn spec_evaluate(groups: Seq<Option<Seq<char>>>) -> Result<
    Seq<char>,
    CaptchaServiceErrorView,
> {
    match captured(Some(groups), 1) {
        None => Err(CaptchaServiceErrorView::InvalidErr),
        Some(left) => match operand(left) {
            None => Err(CaptchaServiceErrorView::ParseIntErr(left)),
            Some(a) => match captured(Some(groups), 2) {
                None => Err(CaptchaServiceErrorView::InvalidErr),
                Some(op) => match captured(Some(groups), 3) {
                    None => Err(CaptchaServiceErrorView::InvalidErr),
                    Some(right) => match operand(right) {
                        None => Err(CaptchaServiceErrorView::ParseIntErr(right)),
                        Some(b) => if op == seq!['+'] {
                            Ok(decimal(a + b))
                        } else if op == seq!['-'] {
                            Ok(decimal(a - b))
                        } else if op == seq!['x'] {
                            Ok(decimal(a * b))
                        } else {
                            Err(CaptchaServiceErrorView::InvalidErr)
                        },
                    },
                },
            },
        },
    }
}

/// The answer chosen among `candidates`, where `found[i]` is what the search
/// for an arithmetic challenge gave in `candidates[i]`, looking at the
/// candidates from index `from` on: the first match is evaluated, whatever
/// stands before it; without a match the last candidate is the answer.
pub open spec fn spec_select_from(
    found: Seq<Option<Seq<Option<Seq<char>>>>>,
    candidates: Seq<Seq<char>>,
    from: int,
) -> Result<Seq<char>, CaptchaServiceErrorView>
    decreases found.len() - from,
{
    if from < 0 || from >= found.len() {
        if candidates.len() == 0 {
            Err(CaptchaServiceErrorView::NoneErr)
        } else {
            Ok(candidates.last())
        }
    } else {
        match found[from] {
            Some(groups) => spec_evaluate(groups),
            None => spec_select_from(found, candidates, from + 1),
        }
    }
}

/// The answer chosen among all of `candidates`.
pub open spec fn spec_select(
    found: Seq<Option<Seq<Option<Seq<char>>>>>,
    candidates: Seq<Seq<char>>,
) -> Result<Seq<char>, CaptchaServiceErrorView> {
    spec_select_from(found, candidates, 0)
}

/// What the search for an arithmetic challenge gives in each candidate.
pub open spec fn challenges(candidates: Seq<Seq<char>>) -> Seq<Option<Seq<Option<Seq<char>>>>> {
    Seq::new(candidates.len(), |i: int| capture_groups(CALC_PATTERN@, false, candidates[i]))
}

/// The answer to a list of candidates.
pub open spec fn spec_process(candidates: Seq<Seq<char>>) -> Result<
    Seq<char>,
    CaptchaServiceErrorView,
> {
    spec_select(challenges(candidates), candidates)
}

/// The outcome of a recognition request, from the driver's report. Any
/// status but 200 is a failure of the service, whatever the body; with 200
/// the body must be a list of candidates.
pub open spec fn spec_recognize(reply: ReplyView) -> Result<Seq<char>, CaptchaServiceErrorView> {
    match reply {
        ReplyView::Solver { status, answers } => if status != 200 {
            Err(CaptchaServiceErrorView::HttpErr(status))
        } else {
            match answers {
                Some(candidates) => spec_process(candidates),
                None => Err(CaptchaServiceErrorView::InvalidErr),
            }
        },
        ReplyView::Failed(failure) => Err(CaptchaServiceErrorView::ReqwestErr(failure)),
        _ => Err(CaptchaServiceErrorView::InvalidErr),
    }
}

/// The matches of a list of searches, over sequences.
pub open spec fn matches_view(found: Seq<Option<Vec<Option<String>>>>) -> Seq<
    Option<Seq<Option<Seq<char>>>>,
> {
    Seq::new(found.len(), |i: int| found_view(found[i]))
}

/// An arithmetic match anywhere in the list wins: where candidate `at` is the
/// first that holds a challenge, the answer is that challenge's result,
/// whatever the candidates before it say.
pub proof fn lemma_first_challenge_wins(
    found: Seq<Option<Seq<Option<Seq<char>>>>>,
    candidates: Seq<Seq<char>>,
    at: int,
)
    requires
        0 <= at < found.len(),
        found[at] is Some,
        forall|i: int| 0 <= i < at ==> found[i] is None,
    ensures
        spec_select(found, candidates) == spec_evaluate(found[at]->0),
{
    lemma_skip_to(found, candidates, 0, at);
}

/// Without a challenge in any candidate the last candidate is the answer,
/// and an empty list has none.
pub proof fn lemma_no_challenge(
    found: Seq<Option<Seq<Option<Seq<char>>>>>,
    candidates: Seq<Seq<char>>,
)
    requires
        forall|i: int| 0 <= i < found.len() ==> found[i] is None,
    ensures
        candidates.len() == 0 ==> spec_select(found, candidates) == Err::<
            Seq<char>,
            CaptchaServiceErrorView,
        >(CaptchaServiceErrorView::NoneErr),
        candidates.len() > 0 ==> spec_select(found, candidates) == Ok::<
            Seq<char>,
            CaptchaServiceErrorView,
        >(candidates.last()),
{
    lemma_skip_to(found, candidates, 0, found.len() as int);
}

proof fn lemma_skip_to(
    found: Seq<Option<Seq<Option<Seq<char>>>>>,
    candidates: Seq<Seq<char>>,
    from: int,
    to: int,
)
    requires
        0 <= from <= to <= found.len(),
        forall|i: int| from <= i < to ==> found[i] is None,
    ensures
        spec_select_from(found, candidates, from) == spec_select_from(found, candidates, to),
    decreases to - from,
{
    if from < to {
        lemma_skip_to(found, candidates, from + 1, to);
    }
}

/// `part` stands in `bytes` from index `at` on.
pub open spec fn has_at(bytes: Seq<u8>, at: int, part: Seq<u8>) -> bool {
    at + part.len() <= bytes.len() && bytes.subrange(at, at + part.len()) == part
}

/// The signature of a local file header of a ZIP archive: `PK 03 04`.
pub open spec fn zip_header() -> Seq<u8> {
    seq![0x50u8, 0x4B, 0x03, 0x04]
}

/// The signature of a compound file.
pub open spec fn compound_header() -> Seq<u8> {
    seq![0xD0u8, 0xCF, 0x11, 0xE0, 0xA1, 0xB1, 0x1A, 0xE1]
}

/// The file name `[Content_Types].xml`.
pub open spec fn content_types_name() -> Seq<u8> {
    seq![
        0x5Bu8, 0x43, 0x6F, 0x6E, 0x74, 0x65, 0x6E, 0x74, 0x5F, 0x54, 0x79, 0x70, 0x65, 0x73, 0x5D,
        0x2E, 0x78, 0x6D, 0x6C,
    ]
}

/// The file name `_rels/.rels`.
pub open spec fn rels_name() -> Seq<u8> {
    seq![0x5Fu8, 0x72, 0x65, 0x6C, 0x73, 0x2F, 0x2E, 0x72, 0x65, 0x6C, 0x73]
}

/// The file name `docProps`.
pub open spec fn doc_props_name() -> Seq<u8> {
    seq![0x64u8, 0x6F, 0x63, 0x50, 0x72, 0x6F, 0x70, 0x73]
}

/// The bytes begin with a skippable frame: `5x 2A 4D 18`.
pub open spec fn is_skippable_frame(bytes: Seq<u8>) -> bool {
    bytes.len() >= 4 && 0x50 <= bytes[0] <= 0x5F && bytes[1] == 0x2A && bytes[2] == 0x4D
        && bytes[3] == 0x18
}

/// The bytes begin like a ZIP archive whose first file, named at offset 30,
/// is one that an office document begins with.
pub open spec fn is_office_archive(bytes: Seq<u8>) -> bool {
    has_at(bytes, 0, zip_header()) && (has_at(bytes, 30, content_types_name()) || has_at(
        bytes,
        30,
        rels_name(),
    ) || has_at(bytes, 30, doc_props_name()))
}

/// The bytes begin like a container whose kind the sniffer can only tell by
/// walking its inside: a skippable frame, a compound file, or the ZIP
/// archive of an office document. Every other buffer, other ZIP archives
/// among them, is told by bytes at fixed places.
pub open spec fn is_container(bytes: Seq<u8>) -> bool {
    is_skippable_frame(bytes) || has_at(bytes, 0, compound_header()) || is_office_archive(bytes)
}

/// The MIME type that the magic number at the head of `bytes` stands for,
/// `None` where the bytes begin like no known kind of file.
pub uninterp spec fn inferred_mime(bytes: Seq<u8>) -> Option<Seq<char>>;

/// Calls `infer::get` and, on a known kind, `infer::Type::mime_type`. The
/// contract gives the answer the name `inferred_mime`: it is read off the
/// bytes alone, against a table that is part of the `infer` crate.
///
/// Containers are left out, and nothing else. For a skippable frame and
/// for the archive of an office document `infer` reads lengths and offsets
/// from the bytes and adds to them, which can overflow where `usize` has 32
/// bits; a compound file it hands to a parser of its own. For every other
/// buffer it only compares and scans bytes of the buffer, behind tests of
/// its length.
#[verifier::external_body]
fn sniff(image: &[u8]) -> (mime: Option<String>)
    requires
        !is_container(image@),
    ensures
        text_view(mime) == inferred_mime(image@),
{
    infer::get(image).map(|kind| kind.mime_type().to_owned())
}

fn stands_at(bytes: &[u8], at: usize, part: &[u8]) -> (r: bool)
    requires
        at + part.len() <= usize::MAX,
    ensures
        r == has_at(bytes@, at as int, part@),
{
    if at + part.len() > bytes.len() {
        return false;
    }
    let mut k: usize = 0;
    while k < part.len()
        invariant
            at + part.len() <= bytes.len(),
            k <= part.len(),
            forall|j: int| 0 <= j < k ==> bytes@[at + j] == part@[j],
        decreases part.len() - k,
    {
        if bytes[at + k] != part[k] {
            proof {
                let window = bytes@.subrange(at as int, at + part.len());
                assert(window[k as int] == bytes@[at + k]);
            }
            return false;
        }
        k += 1;
    }
    assert(bytes@.subrange(at as int, at + part.len()) =~= part@);
    true
}

/// Whether the bytes begin like a container.
pub fn begins_like_container(bytes: &[u8]) -> (r: bool)
    ensures
        r == is_container(bytes@),
{
    let n = bytes.len();
    if n >= 4 && 0x50 <= bytes[0] && bytes[0] <= 0x5F && bytes[1] == 0x2A && bytes[2] == 0x4D
        && bytes[3] == 0x18 {
        return true;
    }
    let compound: [u8; 8] = [0xD0, 0xCF, 0x11, 0xE0, 0xA1, 0xB1, 0x1A, 0xE1];
    proof {
        assert(compound@ =~= compound_header());
    }
    if stands_at(bytes, 0, array_as_slice(&compound)) {
        return true;
    }
    let zip: [u8; 4] = [0x50, 0x4B, 0x03, 0x04];
    proof {
        assert(zip@ =~= zip_header());
    }
    if !stands_at(bytes, 0, array_as_slice(&zip)) {
        return false;
    }
    let content_types: [u8; 19] = [
        0x5B, 0x43, 0x6F, 0x6E, 0x74, 0x65, 0x6E, 0x74, 0x5F, 0x54, 0x79, 0x70, 0x65, 0x73, 0x5D,
        0x2E, 0x78, 0x6D, 0x6C,
    ];
    let rels: [u8; 11] = [0x5F, 0x72, 0x65, 0x6C, 0x73, 0x2F, 0x2E, 0x72, 0x65, 0x6C, 0x73];
    let doc_props: [u8; 8] = [0x64, 0x6F, 0x63, 0x50, 0x72, 0x6F, 0x70, 0x73];
    proof {
        assert(content_types@ =~= content_types_name());
        assert(rels@ =~= rels_name());
        assert(doc_props@ =~= doc_props_name());
    }
    stands_at(bytes, 30, array_as_slice(&content_types)) || stands_at(
        bytes,
        30,
        array_as_slice(&rels),
    ) || stands_at(bytes, 30, array_as_slice(&doc_props))
}

/// The content type under which an image goes to the service: the one that
/// its first bytes give away, and none for a container, which is not
/// sniffed.
pub open spec fn content_type_of(image: Seq<u8>) -> Option<Seq<char>> {
    if is_container(image) {
        None
    } else {
        inferred_mime(image)
    }
}

/// The request that hands `image`, declared as `mime`, to the service at
/// `root`.
pub open spec fn spec_solve_request(
    root: Seq<char>,
    mime: Seq<char>,
    image: Seq<u8>,
) -> HttpRequestView {
    HttpRequestView {
        method: Method::Post,
        url: root + "/solve"@,
        user_agent: None,
        query: Seq::empty(),
        referer: None,
        payload: PayloadView::Raw { content_type: mime, bytes: image },
        expect: Expect::Answers,
    }
}

fn is_sign(text: &String, sign: char) -> (r: bool)
    ensures
        r == (text@ == seq![sign]),
{
    let cs = chars_of(text.as_str());
    let r = cs.len() == 1 && cs[0] == sign;
    proof {
        if r {
            assert(text@ =~= seq![sign]);
        }
    }
    r
}

/// The recognition service, as far as choosing an answer goes.
pub struct CaptchaSolver {
    endpoint_root: String,
}

impl CaptchaSolver {
    /// The root address of the service.
    pub closed spec fn root(&self) -> Seq<char> {
        self.endpoint_root@
    }

    /// A solver that speaks to the service at `endpoint_root`.
    pub fn new(endpoint_root: String) -> (solver: Self)
        ensures
            solver.root() == endpoint_root@,
    {
        CaptchaSolver { endpoint_root }
    }

    /// The request that hands `image` to the service, its content type
    /// given by the caller.
    pub fn solve_request_as(&self, mime: String, image: &[u8]) -> (request: HttpRequest)
        ensures
            request@ == spec_solve_request(self.root(), mime@, image@),
    {
        let mut url = self.endpoint_root.clone();
        url.append("/solve");
        let request = HttpRequest {
            method: Method::Post,
            url,
            user_agent: None,
            query: Vec::new(),
            referer: None,
            payload: Payload::Raw { content_type: mime, bytes: slice_to_vec(image) },
            expect: Expect::Answers,
        };
        proof {
            assert(request@.query =~= Seq::empty());
        }
        request
    }

    /// The request that hands `image` to the service under the content type
    /// that its first bytes give away; `None` where they give none away or
    /// the bytes begin like a container. An image inside an ordinary ZIP
    /// archive, such as OpenRaster, is sniffed like any other.
    pub fn solve_request(&self, image: &[u8]) -> (request: Option<HttpRequest>)
        ensures
            match content_type_of(image@) {
                Some(mime) => request matches Some(r) && r@ == spec_solve_request(
                    self.root(),
                    mime,
                    image@,
                ),
                None => request is None,
            },
    {
        if begins_like_container(image) {
            return None;
        }
        match sniff(image) {
            Some(mime) => Some(self.solve_request_as(mime, image)),
            None => None,
        }
    }

    /// Computes the answer to an arithmetic challenge from the capture
    /// groups of its match.
    pub fn evaluate(groups: &Vec<Option<String>>) -> (r: Result<String, CaptchaServiceError>)
        ensures
            answer_view(r) == spec_evaluate(groups_view(groups@)),
    {
        let left = match group(groups, 1) {
            Some(text) => text,
            None => {
                return Err(CaptchaServiceError::InvalidErr);
            },
        };
        let a = match parse_i32(left.as_str()) {
            Some(value) => value,
            None => {
                return Err(CaptchaServiceError::ParseIntErr(left));
            },
        };
        let op = match group(groups, 2) {
            Some(text) => text,
            None => {
                return Err(CaptchaServiceError::InvalidErr);
            },
        };
        let right = match group(groups, 3) {
            Some(text) => text,
            None => {
                return Err(CaptchaServiceError::InvalidErr);
            },
        };
        let b = match parse_i32(right.as_str()) {
            Some(value) => value,
            None => {
                return Err(CaptchaServiceError::ParseIntErr(right));
            },
        };
        if is_sign(&op, '+') {
            Ok(decimal_string(a as i64 + b as i64))
        } else if is_sign(&op, '-') {
            Ok(decimal_string(a as i64 - b as i64))
        } else if is_sign(&op, 'x') {
            assert(0 <= a * b <= 0x7fff_ffff * 0x7fff_ffff) by (nonlinear_arith)
                requires
                    0 <= a <= 0x7fff_ffff,
                    0 <= b <= 0x7fff_ffff,
            ;
            Ok(decimal_string(a as i64 * b as i64))
        } else {
            Err(CaptchaServiceError::InvalidErr)
        }
    }

    /// Chooses the answer among `candidates`, given for each of them what
    /// the search for an arithmetic challenge found in it.
    pub fn select(found: &Vec<Option<Vec<Option<String>>>>, candidates: &Vec<String>) -> (r: Result<
        String,
        CaptchaServiceError,
    >)
        ensures
            answer_view(r) == spec_select(matches_view(found@), views(candidates@)),
    {
        let ghost all = matches_view(found@);
        let mut i: usize = 0;
        while i < found.len()
            invariant
                i <= found.len(),
                all == matches_view(found@),
                forall|j: int| 0 <= j < i ==> all[j] is None,
            decreases found.len() - i,
        {
            match &found[i] {
                Some(groups) => {
                    proof {
                        lemma_first_challenge_wins(all, views(candidates@), i as int);
                    }
                    return Self::evaluate(groups);
                },
                None => {},
            }
            i += 1;
        }
        proof {
            lemma_no_challenge(all, views(candidates@));
        }
        if candidates.len() == 0 {
            Err(CaptchaServiceError::NoneErr)
        } else {
            Ok(candidates[candidates.len() - 1].clone())
        }
    }

    /// Chooses the answer among the candidates of the recognition service.
    ///
    /// The first candidate that holds an arithmetic challenge decides, even
    /// behind candidates that hold none; without one the last candidate is
    /// taken as it stands.
    pub fn process(&self, resps: Vec<String>) -> (r: Result<String, CaptchaServiceError>)
        ensures
            answer_view(r) == spec_process(views(resps@)),
    {
        let mut found: Vec<Option<Vec<Option<String>>>> = Vec::new();
        let mut i: usize = 0;
        while i < resps.len()
            invariant
                i <= resps.len(),
                found.len() == i,
                forall|j: int|
                    0 <= j < i ==> found_view(#[trigger] found@[j]) == capture_groups(
                        CALC_PATTERN@,
                        false,
                        resps@[j]@,
                    ),
            decreases resps.len() - i,
        {
            found.push(captures(CALC_PATTERN, false, resps[i].as_str()));
            i += 1;
        }
        proof {
            assert(matches_view(found@) =~= challenges(views(resps@)));
        }
        Self::select(&found, &resps)
    }

    /// Reads the driver's report on a recognition request.
    pub fn recognize(&self, reply: Reply) -> (r: Result<String, CaptchaServiceError>)
        ensures
            answer_view(r) == spec_recognize(reply@),
    {
        match reply {
            Reply::Solver { status, answers } => if status != 200 {
                Err(CaptchaServiceError::HttpErr(status))
            } else {
                match answers {
                    Some(candidates) => self.process(candidates),
                    None => Err(CaptchaServiceError::InvalidErr),
                }
            },
            Reply::Failed(failure) => Err(CaptchaServiceError::ReqwestErr(failure)),
            _ => Err(CaptchaServiceError::InvalidErr),
        }
    }
}

} // verus!
