//! The submission-source client logic: the endpoint and authorization header
//! a configuration determines, the continuation-link parsing that pagination
//! follows, the filtered and de-duplicated accumulation of fetched pages, and
//! the score-update request body. The HTTP transport lives outside.
use vstd::prelude::*;
use crate::config::Config;
use crate::pipeline::contains_name;
use crate::text;

verus! {

/// One attachment of a submission, by its retrievable URL.
pub struct Attachment {
    pub url: String,
}

/// One learner's gradable artifact: owner, workflow state, attachments.
/// Immutable once fetched within a poll cycle.
pub struct Submission {
    pub user_id: u32,
    pub workflow_state: String,
    pub attachments: Option<Vec<Attachment>>,
}

/// The mathematical value of a submission.
pub struct SubmissionModel {
    pub user_id: u32,
    pub workflow_state: Seq<char>,
    pub attachments: Option<Seq<Seq<char>>>,
}

impl View for Submission {
    type V = SubmissionModel;

    open spec fn view(&self) -> SubmissionModel {
        SubmissionModel {
            user_id: self.user_id,
            workflow_state: self.workflow_state@,
            attachments: match self.attachments {
                Some(v) => Some(v@.map_values(|a: Attachment| a.url@)),
                None => None,
            },
        }
    }
}

/// The posted grade part of a score update.
pub struct SubmissionScore {
    pub posted_grade: u32,
}

/// The textual comment part of a score update.
pub struct Comment {
    pub text_comment: String,
}

/// The body of a score-update call: the grade and the report text.
pub struct ScoreUpdate {
    pub submission: SubmissionScore,
    pub comment: Comment,
}

/// The submissions endpoint under the API root for one course's assignment.
pub open spec fn submissions_url(api_url: Seq<char>, course_id: u32, assignment_id: u32) -> Seq<
    char,
> {
    api_url + "/api/v1/courses/"@ + text::dec_chars(course_id as nat) + "/assignments/"@
        + text::dec_chars(assignment_id as nat) + "/submissions"@
}

/// The bearer credential line sent with every request.
pub open spec fn bearer_of(api_key: Seq<char>) -> Seq<char> {
    "Bearer "@ + api_key
}

/// The submission-source client's fixed request data: the submissions
/// endpoint, the authorization header value, and the workflow states accepted
/// for grading.
pub struct Canvas {
    pub url: String,
    pub header: String,
    pub fetch_filter: Vec<String>,
}

fn clone_string_vec(v: &Vec<String>) -> (r: Vec<String>)
    ensures
        r.deep_view() == v.deep_view(),
{
    let mut r: Vec<String> = Vec::new();
    let mut i: usize = 0;
    while i < v.len()
        invariant
            i <= v.len(),
            r@.len() == i,
            forall|j: int| 0 <= j < i ==> r.deep_view()[j] == v.deep_view()[j],
        decreases v.len() - i,
    {
        r.push(v[i].clone());
        i = i + 1;
    }
    proof {
        assert(r.deep_view() =~= v.deep_view());
    }
    r
}

impl Canvas {
    /// Builds the client data from the configuration: endpoint, bearer
    /// header, and accepted workflow states.
    pub fn new(config: &Config) -> (r: Canvas)
        ensures
            r.url@ == submissions_url(
                config.api_url@,
                config.sep_course_id,
                config.lab_assignment_id,
            ),
            r.header@ == bearer_of(config.api_key@),
            r.fetch_filter.deep_view() == config.fetch_filter.deep_view(),
    {
        let mut url = config.api_url.clone();
        text::append_str(&mut url, "/api/v1/courses/");
        let course = text::u32_to_string(config.sep_course_id);
        text::append_str(&mut url, course.as_str());
        text::append_str(&mut url, "/assignments/");
        let assignment = text::u32_to_string(config.lab_assignment_id);
        text::append_str(&mut url, assignment.as_str());
        text::append_str(&mut url, "/submissions");
        let mut header = "Bearer ".to_owned();
        text::append_str(&mut header, config.api_key.as_str());
        proof {
            assert(url@ =~= submissions_url(
                config.api_url@,
                config.sep_course_id,
                config.lab_assignment_id,
            ));
            assert(header@ =~= bearer_of(config.api_key@));
        }
        Canvas { url, header, fetch_filter: clone_string_vec(&config.fetch_filter) }
    }

    /// The request that reports a score: the per-submission endpoint and the
    /// body carrying the grade and the comment. Sending it is the caller's
    /// affair; a failure there is logged, not retried.
    pub fn score_update_request(&self, sub_id: u32, score: u32, comment: &str) -> (r: (
        String,
        ScoreUpdate,
    ))
        ensures
            r.0@ == self.url@ + "/"@ + text::dec_chars(sub_id as nat),
            r.1.submission.posted_grade == score,
            r.1.comment.text_comment@ == comment@,
    {
        let mut url = self.url.clone();
        text::append_str(&mut url, "/");
        let id = text::u32_to_string(sub_id);
        text::append_str(&mut url, id.as_str());
        proof {
            assert(url@ =~= self.url@ + "/"@ + text::dec_chars(sub_id as nat));
        }
        let body = ScoreUpdate {
            submission: SubmissionScore { posted_grade: score },
            comment: Comment { text_comment: comment.to_owned() },
        };
        (url, body)
    }
}

/// Whitespace as trimmed from a link segment.
pub open spec fn is_space(c: char) -> bool {
    c == ' ' || c == '\t' || c == '\r' || c == '\n'
}

/// The sequence with its longest prefix of matching characters removed.
pub open spec fn drop_while_front(s: Seq<char>, pred: spec_fn(char) -> bool) -> Seq<char>
    decreases s.len(),
{
    if s.len() > 0 && pred(s[0]) {
        drop_while_front(s.drop_first(), pred)
    } else {
        s
    }
}

/// The sequence with its longest suffix of matching characters removed.
pub open spec fn drop_while_back(s: Seq<char>, pred: spec_fn(char) -> bool) -> Seq<char>
    decreases s.len(),
{
    if s.len() > 0 && pred(s.last()) {
        drop_while_back(s.drop_last(), pred)
    } else {
        s
    }
}

/// The index of the first occurrence of the character, or the length when it
/// does not occur.
pub open spec fn find_first(s: Seq<char>, c: char) -> nat
    decreases s.len(),
{
    if s.len() == 0 {
        0
    } else if s[0] == c {
        0
    } else {
        1 + find_first(s.drop_first(), c)
    }
}

proof fn lemma_find_first_at(s: Seq<char>, c: char, i: int)
    requires
        0 <= i <= s.len(),
        forall|j: int| 0 <= j < i ==> s[j] != c,
        i < s.len() ==> s[i] == c,
    ensures
        find_first(s, c) == i,
    decreases i,
{
    if i == 0 {
    } else {
        lemma_find_first_at(s.drop_first(), c, i - 1);
    }
}

proof fn lemma_drop_front_at(s: Seq<char>, pred: spec_fn(char) -> bool, i: int)
    requires
        0 <= i <= s.len(),
        forall|j: int| 0 <= j < i ==> pred(s[j]),
        i < s.len() ==> !pred(s[i]),
    ensures
        drop_while_front(s, pred) == s.subrange(i, s.len() as int),
    decreases i,
{
    if i == 0 {
        assert(s.subrange(0, s.len() as int) =~= s);
    } else {
        lemma_drop_front_at(s.drop_first(), pred, i - 1);
        assert(s.drop_first().subrange(i - 1, s.drop_first().len() as int) =~= s.subrange(
            i,
            s.len() as int,
        ));
    }
}

proof fn lemma_drop_back_at(s: Seq<char>, pred: spec_fn(char) -> bool, i: int)
    requires
        0 <= i <= s.len(),
        forall|j: int| i <= j < s.len() ==> pred(s[j]),
        i > 0 ==> !pred(s[i - 1]),
    ensures
        drop_while_back(s, pred) == s.subrange(0, i),
    decreases s.len() - i,
{
    if i == s.len() {
        assert(s.subrange(0, s.len() as int) =~= s);
    } else {
        assert(pred(s.last()));
        lemma_drop_back_at(s.drop_last(), pred, i);
        assert(s.drop_last().subrange(0, i) =~= s.subrange(0, i));
    }
}

/// The part of a link segment before its first parameter separator.
pub open spec fn upto_semi(seg: Seq<char>) -> Seq<char> {
    seg.subrange(0, find_first(seg, ';') as int)
}

/// The URL inside a link segment: the part before the first `;`, trimmed of
/// whitespace, then of the angle brackets around it.
pub open spec fn extract_url(seg: Seq<char>) -> Seq<char> {
    drop_while_back(
        drop_while_front(
            drop_while_back(drop_while_front(upto_semi(seg), |c: char| is_space(c)), |c: char| is_space(c)),
            |c: char| c == '<',
        ),
        |c: char| c == '>',
    )
}

/// Whether the character occurs in the sequence.
pub open spec fn contains_char(s: Seq<char>, c: char) -> bool {
    exists|i: int| 0 <= i < s.len() && s[i] == c
}

/// The continuation URL with the access credential re-attached, as a query
/// parameter continuing an existing query or opening one.
pub open spec fn attach_token(url: Seq<char>, token: Seq<char>) -> Seq<char> {
    if contains_char(url, '?') {
        url + "&access_token="@ + token
    } else {
        url + "?access_token="@ + token
    }
}

/// What following the `Link` header yields: the URL of the first
/// comma-separated segment marked as the next page, with the access
/// credential re-attached — or nothing when no segment is so marked.
pub open spec fn next_link_spec(h: Seq<char>, token: Seq<char>) -> Option<Seq<char>>
    decreases h.len(),
{
    let k = find_first(h, ',');
    let seg = h.subrange(0, if k <= h.len() { k as int } else { h.len() as int });
    if text::contains_seq(seg, "rel=\"next\""@) {
        Some(attach_token(extract_url(seg), token))
    } else if k >= h.len() {
        None
    } else {
        next_link_spec(h.subrange(k + 1 as int, h.len() as int), token)
    }
}

/// Whether a user already has a collected submission.
pub open spec fn seen_user(acc: Seq<SubmissionModel>, uid: u32) -> bool {
    exists|i: int| 0 <= i < acc.len() && acc[i].user_id == uid
}

/// The mathematical value of a list of submissions.
pub open spec fn subs_model(v: Seq<Submission>) -> Seq<SubmissionModel> {
    v.map_values(|s: Submission| s@)
}

/// One fetched page folded into the collected list: submissions in accepted
/// workflow states are appended in page order, those of users already
/// collected are dropped, everything else is left as it stands.
pub open spec fn accumulate_page(
    acc: Seq<SubmissionModel>,
    page: Seq<SubmissionModel>,
    filter: Seq<Seq<char>>,
) -> Seq<SubmissionModel>
    decreases page.len(),
{
    if page.len() == 0 {
        acc
    } else {
        let s = page[0];
        let acc1 = if contains_name(filter, s.workflow_state) && !seen_user(acc, s.user_id) {
            acc.push(s)
        } else {
            acc
        };
        accumulate_page(acc1, page.drop_first(), filter)
    }
}

/// Whether a workflow state is among the accepted ones.
pub fn state_accepted(filter: &Vec<String>, state: &str) -> (r: bool)
    ensures
        r == contains_name(filter.deep_view(), state@),
{
    let mut i: usize = 0;
    while i < filter.len()
        invariant
            i <= filter.len(),
            forall|j: int| 0 <= j < i ==> filter.deep_view()[j] != state@,
        decreases filter.len() - i,
    {
        if text::str_eq(filter[i].as_str(), state) {
            proof {
                assert(filter.deep_view()[i as int] == state@);
            }
            return true;
        }
        i = i + 1;
    }
    false
}

/// The submissions collected over a paginated fetch: one de-duplicated,
/// filtered, concatenated list.
pub struct FetchState {
    pub collected: Vec<Submission>,
}

impl FetchState {
    /// The mathematical value of the collected list.
    pub open spec fn view_val(&self) -> Seq<SubmissionModel> {
        subs_model(self.collected@)
    }

    /// An empty collection, before the first page.
    pub fn new() -> (r: FetchState)
        ensures
            r.view_val() == Seq::<SubmissionModel>::empty(),
    {
        let r = FetchState { collected: Vec::new() };
        proof {
            assert(r.view_val() =~= Seq::<SubmissionModel>::empty());
        }
        r
    }

    fn seen(&self, uid: u32) -> (r: bool)
        ensures
            r == seen_user(self.view_val(), uid),
    {
        let mut i: usize = 0;
        while i < self.collected.len()
            invariant
                i <= self.collected.len(),
                forall|j: int| 0 <= j < i ==> self.view_val()[j].user_id != uid,
            decreases self.collected.len() - i,
        {
            if self.collected[i].user_id == uid {
                proof {
                    assert(self.view_val()[i as int].user_id == uid);
                }
                return true;
            }
            i = i + 1;
        }
        false
    }

    /// Folds one fetched page in: keeps submissions whose workflow state the
    /// canvas accepts and whose user is not yet collected, in page order.
    pub fn absorb_page(&mut self, canvas: &Canvas, page: Vec<Submission>)
        ensures
            final(self).view_val() == accumulate_page(
                old(self).view_val(),
                subs_model(page@),
                canvas.fetch_filter.deep_view(),
            ),
    {
        let ghost orig = subs_model(page@);
        let ghost filter = canvas.fetch_filter.deep_view();
        let mut remaining = page;
        while remaining.len() > 0
            invariant
                accumulate_page(self.view_val(), subs_model(remaining@), filter) == accumulate_page(
                    old(self).view_val(),
                    orig,
                    filter,
                ),
                filter == canvas.fetch_filter.deep_view(),
            decreases remaining.len(),
        {
            let ghost before = subs_model(remaining@);
            let sub = remaining.remove(0);
            proof {
                assert(before[0] == sub@);
                assert(before.drop_first() =~= subs_model(remaining@));
            }
            let keep = state_accepted(&canvas.fetch_filter, sub.workflow_state.as_str())
                && !self.seen(sub.user_id);
            let ghost pre = self.view_val();
            if keep {
                self.collected.push(sub);
                proof {
                    assert(self.view_val() =~= pre.push(before[0]));
                }
            }
        }
        proof {
            assert(subs_model(remaining@) =~= Seq::<SubmissionModel>::empty());
        }
    }
}

/// Law: a paginated fetch yields one de-duplicated, filtered, concatenated
/// list. Folding a page in keeps what was already collected, in order; keeps
/// only accepted workflow states; never collects one user twice; and adds
/// nothing that the page did not hold.
pub proof fn lemma_accumulate_page_properties(
    acc: Seq<SubmissionModel>,
    page: Seq<SubmissionModel>,
    filter: Seq<Seq<char>>,
)
    requires
        forall|i: int| 0 <= i < acc.len() ==> contains_name(filter, acc[i].workflow_state),
        forall|i: int, j: int| 0 <= i < j < acc.len() ==> acc[i].user_id != acc[j].user_id,
    ensures
        ({
            let r = accumulate_page(acc, page, filter);
            &&& r.len() >= acc.len()
            &&& forall|i: int| 0 <= i < acc.len() ==> r[i] == acc[i]
            &&& forall|i: int| 0 <= i < r.len() ==> contains_name(filter, r[i].workflow_state)
            &&& forall|i: int, j: int| 0 <= i < j < r.len() ==> r[i].user_id != r[j].user_id
            &&& forall|i: int|
                #![trigger r[i]]
                acc.len() <= i < r.len() ==> exists|j: int|
                    0 <= j < page.len() && r[i] == #[trigger] page[j]
        }),
    decreases page.len(),
{
    if page.len() > 0 {
        let s = page[0];
        let keep = contains_name(filter, s.workflow_state) && !seen_user(acc, s.user_id);
        let acc1 = if keep {
            acc.push(s)
        } else {
            acc
        };
        assert forall|i: int, j: int| 0 <= i < j < acc1.len() implies acc1[i].user_id
            != acc1[j].user_id by {
            if keep && j == acc1.len() - 1 {
                assert(!seen_user(acc, s.user_id));
                assert(acc1[i] == acc[i]);
            }
        }
        lemma_accumulate_page_properties(acc1, page.drop_first(), filter);
        let r = accumulate_page(acc, page, filter);
        assert forall|i: int| #![trigger r[i]] acc.len() <= i < r.len() implies exists|j: int|
            0 <= j < page.len() && r[i] == #[trigger] page[j] by {
            if keep && i == acc.len() {
                assert(r[i] == acc1[i]);
                assert(r[i] == page[0]);
            } else {
                assert(exists|j: int|
                    0 <= j < page.drop_first().len() && r[i] == #[trigger] page.drop_first()[j]);
                let j = choose|j: int|
                    0 <= j < page.drop_first().len() && r[i] == #[trigger] page.drop_first()[j];
                assert(r[i] == page[j + 1]);
            }
        }
    }
}

/// Law: the access credential stands on every followed continuation link —
/// any URL the link parser hands back ends with the credential parameter.
pub proof fn lemma_next_link_carries_token(h: Seq<char>, token: Seq<char>)
    requires
        next_link_spec(h, token) is Some,
    ensures
        ({
            let u = next_link_spec(h, token)->0;
            &&& u.len() >= "access_token="@.len() + token.len()
            &&& u.subrange(
                u.len() - token.len() - "access_token="@.len(),
                u.len() as int,
            ) == "access_token="@ + token
        }),
    decreases h.len(),
{
    reveal_strlit("access_token=");
    reveal_strlit("&access_token=");
    reveal_strlit("?access_token=");
    let k = find_first(h, ',');
    let seg = h.subrange(0, if k <= h.len() { k as int } else { h.len() as int });
    if text::contains_seq(seg, "rel=\"next\""@) {
        let url = extract_url(seg);
        let u = next_link_spec(h, token)->0;
        if contains_char(url, '?') {
            assert(u =~= url + "&access_token="@ + token);
            assert(u.subrange(u.len() - token.len() - "access_token="@.len(), u.len() as int)
                =~= "access_token="@ + token);
        } else {
            assert(u =~= url + "?access_token="@ + token);
            assert(u.subrange(u.len() - token.len() - "access_token="@.len(), u.len() as int)
                =~= "access_token="@ + token);
        }
    } else {
        lemma_next_link_carries_token(h.subrange(k + 1 as int, h.len() as int), token);
    }
}

fn is_space_char(c: char) -> (r: bool)
    ensures
        r == is_space(c),
{
    c == ' ' || c == '\t' || c == '\r' || c == '\n'
}

fn extract_url_string(seg: &str) -> (r: String)
    ensures
        r@ == extract_url(seg@),
{
    let m = seg.unicode_len();
    let semi = match text::find_char(seg, ';', 0) {
        Some(i) => i,
        None => m,
    };
    proof {
        lemma_find_first_at(seg@, ';', semi as int);
    }
    let part = seg.substring_char(0, semi);
    let plen = semi;
    assert(part@.len() == plen);
    let mut lo: usize = 0;
    while lo < plen && is_space_char(part.get_char(lo))
        invariant
            0 <= lo <= plen,
            plen == part@.len(),
            forall|j: int| 0 <= j < lo ==> is_space(part@[j]),
        decreases plen - lo,
    {
        lo = lo + 1;
    }
    let mut hi: usize = plen;
    while hi > lo && is_space_char(part.get_char(hi - 1))
        invariant
            lo <= hi <= plen,
            plen == part@.len(),
            forall|j: int| hi <= j < plen ==> is_space(part@[j]),
        decreases hi,
    {
        hi = hi - 1;
    }
    let ghost trimmed = part@.subrange(lo as int, hi as int);
    proof {
        let sp = |c: char| is_space(c);
        lemma_drop_front_at(part@, sp, lo as int);
        let after_front = part@.subrange(lo as int, plen as int);
        lemma_drop_back_at(after_front, sp, hi - lo);
        assert(after_front.subrange(0, hi - lo) =~= trimmed);
        assert(drop_while_back(drop_while_front(part@, sp), sp) == trimmed);
    }
    let mut lo2: usize = lo;
    while lo2 < hi && part.get_char(lo2) == '<'
        invariant
            lo <= lo2 <= hi <= plen,
            plen == part@.len(),
            forall|j: int| lo <= j < lo2 ==> part@[j] == '<',
        decreases hi - lo2,
    {
        lo2 = lo2 + 1;
    }
    let mut hi2: usize = hi;
    while hi2 > lo2 && part.get_char(hi2 - 1) == '>'
        invariant
            lo2 <= hi2 <= hi <= plen,
            plen == part@.len(),
            forall|j: int| hi2 <= j < hi ==> part@[j] == '>',
        decreases hi2,
    {
        hi2 = hi2 - 1;
    }
    proof {
        let lt = |c: char| c == '<';
        let gt = |c: char| c == '>';
        lemma_drop_front_at(trimmed, lt, lo2 - lo);
        let after_lt = trimmed.subrange(lo2 - lo, trimmed.len() as int);
        lemma_drop_back_at(after_lt, gt, hi2 - lo2);
        assert(after_lt.subrange(0, hi2 - lo2) =~= part@.subrange(lo2 as int, hi2 as int));
        assert(part@ =~= upto_semi(seg@));
        assert(extract_url(seg@) == part@.subrange(lo2 as int, hi2 as int));
    }
    let url = part.substring_char(lo2, hi2);
    url.to_owned()
}

fn attach_token_string(url: String, token: &str) -> (r: String)
    ensures
        r@ == attach_token(url@, token@),
{
    let ghost u0 = url@;
    let has_query = match text::find_char(url.as_str(), '?', 0) {
        Some(i) => {
            proof {
                assert(u0[i as int] == '?');
                assert(contains_char(u0, '?'));
            }
            true
        },
        None => false,
    };
    proof {
        assert(has_query == contains_char(u0, '?'));
    }
    let mut r = url;
    if has_query {
        text::append_str(&mut r, "&access_token=");
    } else {
        text::append_str(&mut r, "?access_token=");
    }
    text::append_str(&mut r, token);
    proof {
        assert(r@ =~= attach_token(u0, token@));
    }
    r
}

/// Parses the next-page URL out of a `Link` header and re-attaches the
/// access credential to it.
pub fn get_next_link(link_header: &str, access_token: &str) -> (r: Option<String>)
    ensures
        match r {
            Some(u) => next_link_spec(link_header@, access_token@) == Some(u@),
            None => next_link_spec(link_header@, access_token@) is None,
        },
{
    let n = link_header.unicode_len();
    let mut start: usize = 0;
    proof {
        assert(link_header@.subrange(0, n as int) =~= link_header@);
    }
    while start <= n
        invariant
            start <= n + 1,
            start <= n,
            n == link_header@.len(),
            next_link_spec(link_header@, access_token@) == next_link_spec(
                link_header@.subrange(start as int, n as int),
                access_token@,
            ),
        decreases n - start,
    {
        let ghost suffix = link_header@.subrange(start as int, n as int);
        let end = match text::find_char(link_header, ',', start) {
            Some(k) => k,
            None => n,
        };
        proof {
            lemma_find_first_at(suffix, ',', end - start);
        }
        let seg = link_header.substring_char(start, end);
        proof {
            assert(seg@ =~= suffix.subrange(0, end - start));
        }
        if text::contains_str(seg, "rel=\"next\"") {
            let url = extract_url_string(seg);
            let with_token = attach_token_string(url, access_token);
            return Some(with_token);
        }
        if end == n {
            return None;
        }
        let ghost k = end - start;
        start = end + 1;
        proof {
            assert(link_header@.subrange(start as int, n as int) =~= suffix.subrange(
                k + 1,
                suffix.len() as int,
            ));
        }
    }
    proof {
        assert(false);
    }
    None
}

} // verus!
