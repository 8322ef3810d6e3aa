//! Review of listing requests: the state a request moves through, the
//! retreat, owner account and membership that approval creates, the slug the
//! new retreat gets, and the temporary password of a new owner.
use vstd::prelude::*;
use crate::models::{clone_json, decimal_from_int, decimal_of_int, ListingRequestModel, User};
use crate::text::{
    all_ascii, alphanumeric, ascii_alnum, ascii_lower_char, ascii_lowercase, count_char,
    is_ascii_char, decimal, is_alphanumeric, lowercase_of, push_decimal, str_eq, string_push,
    to_lowercase, lemma_decimal_injective, lemma_decimal_len,
};
use crate::timestamp::Timestamp;
use rand::rngs::ThreadRng;
use rand::Rng;
use sea_orm::prelude::Decimal;
use serde_json::Value as JsonValue;
use vstd::string::StrSliceExecFns;

verus! {

// ---------------------------------------------------------------- slugs

/// The slug of already-lowercased text: spaces become hyphens, alphanumeric
/// characters stay, everything else is dropped.
pub open spec fn slug_of(lower: Seq<char>) -> Seq<char>
    decreases lower.len(),
{
    if lower.len() == 0 {
        seq![]
    } else {
        let prev = slug_of(lower.drop_last());
        let c = lower.last();
        if c == ' ' {
            prev.push('-')
        } else if alphanumeric(c) {
            prev.push(c)
        } else {
            prev
        }
    }
}

/// The slug of ASCII text that is already lowercase, with ASCII letters and
/// digits kept.
pub open spec fn ascii_slug_of(lower: Seq<char>) -> Seq<char>
    decreases lower.len(),
{
    if lower.len() == 0 {
        seq![]
    } else {
        let prev = ascii_slug_of(lower.drop_last());
        let c = lower.last();
        if c == ' ' {
            prev.push('-')
        } else if ascii_alnum(c) {
            prev.push(c)
        } else {
            prev
        }
    }
}

/// The slug of ASCII text: letters and digits kept and lowercased, each
/// space a hyphen, every other character dropped.
pub open spec fn ascii_slug(text: Seq<char>) -> Seq<char>
    decreases text.len(),
{
    if text.len() == 0 {
        seq![]
    } else {
        let prev = ascii_slug(text.drop_last());
        let c = text.last();
        if c == ' ' {
            prev.push('-')
        } else if ascii_alnum(c) {
            prev.push(ascii_lower_char(c))
        } else {
            prev
        }
    }
}

/// Whether the named `alphanumeric` agrees with `ascii_alnum` on the ASCII
/// characters of a text other than spaces.
spec fn alnum_known(lower: Seq<char>) -> bool {
    forall|j: int|
        0 <= j < lower.len() && lower[j] != ' ' && is_ascii_char(#[trigger] lower[j]) ==> (
        alphanumeric(lower[j]) <==> ascii_alnum(lower[j]))
}

proof fn lemma_slug_hyphens(lower: Seq<char>)
    requires
        alnum_known(lower),
    ensures
        count_char(slug_of(lower), '-') == count_char(lower, ' '),
    decreases lower.len(),
{
    if lower.len() > 0 {
        let init = lower.drop_last();
        assert forall|j: int|
            0 <= j < init.len() && init[j] != ' ' && is_ascii_char(#[trigger] init[j]) implies (
            alphanumeric(init[j]) <==> ascii_alnum(init[j])) by {
            assert(init[j] == lower[j]);
        }
        lemma_slug_hyphens(init);
        let c = lower.last();
        assert(lower[lower.len() - 1] == c);
        let prev = slug_of(init);
        if c == ' ' {
            assert(prev.push('-').drop_last() =~= prev);
        } else if alphanumeric(c) {
            assert(c != '-');
            assert(prev.push(c).drop_last() =~= prev);
        }
    }
}

proof fn lemma_slug_of_ascii(lower: Seq<char>)
    requires
        alnum_known(lower),
        all_ascii(lower),
    ensures
        slug_of(lower) == ascii_slug_of(lower),
    decreases lower.len(),
{
    if lower.len() > 0 {
        let init = lower.drop_last();
        assert forall|j: int|
            0 <= j < init.len() && init[j] != ' ' && is_ascii_char(#[trigger] init[j]) implies (
            alphanumeric(init[j]) <==> ascii_alnum(init[j])) by {
            assert(init[j] == lower[j]);
        }
        assert forall|j: int| 0 <= j < init.len() implies is_ascii_char(#[trigger] init[j]) by {
            assert(init[j] == lower[j]);
        }
        lemma_slug_of_ascii(init);
        assert(lower[lower.len() - 1] == lower.last());
        assert(is_ascii_char(lower[lower.len() - 1]));
    }
}

/// Lowercasing ASCII text first does not change its slug.
proof fn lemma_ascii_slug_of_lowercase(text: Seq<char>)
    ensures
        ascii_slug_of(ascii_lowercase(text)) == ascii_slug(text),
    decreases text.len(),
{
    if text.len() > 0 {
        let lower = ascii_lowercase(text);
        assert(lower.drop_last() =~= ascii_lowercase(text.drop_last()));
        lemma_ascii_slug_of_lowercase(text.drop_last());
        let c = text.last();
        assert(lower.last() == ascii_lower_char(c));
        if 'A' <= c && c <= 'Z' {
            assert(((c as u32) + 32) as char == ascii_lower_char(c));
            assert('a' <= ascii_lower_char(c) && ascii_lower_char(c) <= 'z');
        }
    }
}

/// The slug of ASCII text is built piece by piece: the slug of two texts
/// joined is the two slugs joined.
pub proof fn lemma_ascii_slug_concat(a: Seq<char>, b: Seq<char>)
    ensures
        ascii_slug(a + b) == ascii_slug(a) + ascii_slug(b),
    decreases b.len(),
{
    if b.len() == 0 {
        assert(a + b =~= a);
        assert(ascii_slug(a) + ascii_slug(b) =~= ascii_slug(a));
    } else {
        assert((a + b).drop_last() =~= a + b.drop_last());
        assert((a + b).last() == b.last());
        lemma_ascii_slug_concat(a, b.drop_last());
        let p = ascii_slug(b.drop_last());
        assert((ascii_slug(a) + p).push('-') =~= ascii_slug(a) + p.push('-'));
        assert((ascii_slug(a) + p).push(ascii_lower_char(b.last())) =~= ascii_slug(a) + p.push(
            ascii_lower_char(b.last()),
        ));
    }
}

/// Turns lowercased text into a slug: each space becomes a hyphen, and a
/// hyphen of the text is dropped, so the slug has as many hyphens as the
/// text has spaces.
pub fn slug_from_lowercase(lower: &str) -> (r: String)
    ensures
        r@ == slug_of(lower@),
        count_char(r@, '-') == count_char(lower@, ' '),
        all_ascii(lower@) ==> r@ == ascii_slug_of(lower@),
{
    let n = lower.unicode_len();
    let mut out = String::new();
    let mut i: usize = 0;
    while i < n
        invariant
            n == lower@.len(),
            i <= n,
            out@ == slug_of(lower@.take(i as int)),
            alnum_known(lower@.take(i as int)),
        decreases n - i,
    {
        let c = lower.get_char(i);
        assert(lower@.take(i + 1).drop_last() =~= lower@.take(i as int));
        if c == ' ' {
            string_push(&mut out, '-');
        } else if is_alphanumeric(c) {
            string_push(&mut out, c);
        }
        assert forall|j: int|
            0 <= j < lower@.take(i + 1).len() && lower@.take(i + 1)[j] != ' ' && is_ascii_char(
                #[trigger] lower@.take(i + 1)[j],
            ) implies (alphanumeric(lower@.take(i + 1)[j]) <==> ascii_alnum(
            lower@.take(i + 1)[j],
        )) by {
            if j < i {
                assert(lower@.take(i + 1)[j] == lower@.take(i as int)[j]);
            } else {
                assert(lower@.take(i + 1)[j] == c);
            }
        }
        i = i + 1;
    }
    assert(lower@.take(n as int) =~= lower@);
    proof {
        lemma_slug_hyphens(lower@);
        if all_ascii(lower@) {
            lemma_slug_of_ascii(lower@);
        }
    }
    out
}

/// The slug of a retreat name: lowercased, spaces as hyphens, other
/// non-alphanumeric characters dropped. It holds one hyphen for each space
/// of the name, and on ASCII names it keeps the ASCII letters and digits,
/// lowercased.
pub fn slugify(text: &str) -> (r: String)
    ensures
        r@ == slug_of(lowercase_of(text@)),
        count_char(r@, '-') == count_char(text@, ' '),
        all_ascii(text@) ==> r@ == ascii_slug(text@),
{
    let lower = to_lowercase(text);
    let r = slug_from_lowercase(lower.as_str());
    proof {
        if all_ascii(text@) {
            assert forall|i: int| 0 <= i < lower@.len() implies is_ascii_char(
                #[trigger] lower@[i],
            ) by {
                let c = text@[i];
                assert(is_ascii_char(c));
                if 'A' <= c && c <= 'Z' {
                    assert(lower@[i] == ascii_lower_char(c));
                }
            }
            lemma_ascii_slug_of_lowercase(text@);
        }
    }
    r
}

/// Slugs hold no spaces, and only hyphens and alphanumeric characters.
pub proof fn lemma_slug_charset(lower: Seq<char>)
    ensures
        forall|i: int| 0 <= i < slug_of(lower).len() ==> {
            let c = #[trigger] slug_of(lower)[i];
            c != ' ' && (c == '-' || alphanumeric(c))
        },
        slug_of(lower).len() <= lower.len(),
    decreases lower.len(),
{
    if lower.len() > 0 {
        lemma_slug_charset(lower.drop_last());
        let prev = slug_of(lower.drop_last());
        assert forall|i: int| 0 <= i < slug_of(lower).len() implies {
            let c = #[trigger] slug_of(lower)[i];
            c != ' ' && (c == '-' || alphanumeric(c))
        } by {
            if i < prev.len() {
                assert(slug_of(lower)[i] == prev[i]);
            }
        }
    }
}

/// The slug a retreat starts from: the one the approval names, else the slug
/// of the requested retreat name.
pub fn base_slug(requested: Option<String>, retreat_name: &str) -> (r: String)
    ensures
        match requested {
            Some(s) => r == s,
            None => r@ == slug_of(lowercase_of(retreat_name@)),
        },
{
    match requested {
        Some(s) => s,
        None => slugify(retreat_name),
    }
}

/// The slug tried after `n` earlier candidates were taken: the base itself,
/// then the base followed by `-1`, `-2`, ...
pub open spec fn slug_candidate(base: Seq<char>, n: nat) -> Seq<char> {
    if n == 0 {
        base
    } else {
        base + seq!['-'] + decimal(n)
    }
}

/// Different attempts try different slugs, so the search for a free slug
/// never tries one twice.
pub proof fn lemma_slug_candidates_distinct(base: Seq<char>, i: nat, j: nat)
    requires
        i != j,
    ensures
        slug_candidate(base, i) != slug_candidate(base, j),
{
    lemma_decimal_len(i);
    lemma_decimal_len(j);
    if i != 0 && j != 0 {
        if slug_candidate(base, i) == slug_candidate(base, j) {
            let k = base.len() + 1;
            assert(slug_candidate(base, i).subrange(k as int, slug_candidate(base, i).len() as int)
                =~= decimal(i));
            assert(slug_candidate(base, j).subrange(k as int, slug_candidate(base, j).len() as int)
                =~= decimal(j));
            lemma_decimal_injective(i, j);
        }
    } else {
        assert(slug_candidate(base, i).len() != slug_candidate(base, j).len());
    }
}

/// The search for a slug no retreat uses yet: each candidate is looked up,
/// the first one nobody uses is taken.
pub struct SlugSearch {
    base: String,
    attempts: u32,
}

impl SlugSearch {
    /// The base slug.
    pub closed spec fn base_spec(self) -> Seq<char> {
        self.base@
    }

    /// How many candidates were found taken so far.
    pub closed spec fn attempts_spec(self) -> nat {
        self.attempts as nat
    }

    /// The candidate to look up next.
    pub open spec fn current(self) -> Seq<char> {
        slug_candidate(self.base_spec(), self.attempts_spec())
    }

    /// The candidates found taken so far, in the order they were tried.
    pub open spec fn taken(self) -> Seq<Seq<char>> {
        Seq::new(self.attempts_spec(), |k: int| slug_candidate(self.base_spec(), k as nat))
    }

    pub fn new(base: &str) -> (r: SlugSearch)
        ensures
            r.base_spec() == base@,
            r.attempts_spec() == 0,
            r.taken() == Seq::<Seq<char>>::empty(),
    {
        SlugSearch { base: base.to_owned(), attempts: 0 }
    }

    /// How many candidates were found taken so far.
    pub fn attempts(&self) -> (r: u32)
        ensures
            r == self.attempts_spec(),
    {
        self.attempts
    }

    /// The candidate to look up next.
    pub fn candidate(&self) -> (r: String)
        ensures
            r@ == self.current(),
    {
        let mut s = self.base.clone();
        if self.attempts > 0 {
            string_push(&mut s, '-');
            push_decimal(&mut s, self.attempts as u64);
        }
        assert(s@ =~= self.current());
        s
    }

    /// Takes the number of retreats that already use the current candidate:
    /// none gives the candidate, any moves on to the next one. So the slug a
    /// search gives is the first candidate, in the order base, base-1,
    /// base-2, ..., that was not found taken: every earlier one is in
    /// `taken`, and the slug given is not. The counter
    /// is an `i32` in the service, so it stops below `i32::MAX`.
    pub fn record_uses(&mut self, uses: u64) -> (r: Option<String>)
        requires
            uses > 0 ==> old(self).attempts_spec() < 0x7fff_ffff,
        ensures
            final(self).base_spec() == old(self).base_spec(),
            uses == 0 ==> (r matches Some(s) && s@ == old(self).current()),
            uses == 0 ==> final(self).attempts_spec() == old(self).attempts_spec(),
            uses > 0 ==> r is None && final(self).attempts_spec() == old(self).attempts_spec() + 1,
            uses > 0 ==> final(self).taken() == old(self).taken().push(old(self).current()),
            uses == 0 ==> (r matches Some(s) && !old(self).taken().contains(s@)),
    {
        proof {
            let t = old(self).taken();
            if t.contains(old(self).current()) {
                let k = choose|k: int| 0 <= k < t.len() && t[k] == old(self).current();
                lemma_slug_candidates_distinct(
                    old(self).base_spec(),
                    k as nat,
                    old(self).attempts_spec(),
                );
            }
        }
        if uses == 0 {
            Some(self.candidate())
        } else {
            self.attempts = self.attempts + 1;
            None
        }
    }
}

// ---------------------------------------------------------------- passwords

/// Number of characters a temporary password draws from.
pub const PASSWORD_CHARSET_LEN: usize = 62;

/// Length of a temporary password.
pub const TEMP_PASSWORD_LEN: usize = 12;

/// The `i`-th character of `A`..`Z`, `a`..`z`, `0`..`9`.
pub open spec fn password_char(i: int) -> char {
    if i < 26 {
        (65 + i) as char
    } else if i < 52 {
        (97 + (i - 26)) as char
    } else {
        (48 + (i - 52)) as char
    }
}

fn charset_char(i: usize) -> (c: char)
    requires
        i < PASSWORD_CHARSET_LEN,
    ensures
        c == password_char(i as int),
        ascii_alnum(c),
{
    let b: u8 = if i < 26 {
        65u8 + (i as u8)
    } else if i < 52 {
        97u8 + ((i - 26) as u8)
    } else {
        48u8 + ((i - 52) as u8)
    };
    let c = b as char;
    assert(c == password_char(i as int));
    c
}

/// A thread-local random number generator.
#[verifier::external_type_specification]
#[verifier::external_body]
pub struct ExThreadRng(rand::rngs::ThreadRng);

/// Calls `rand::thread_rng`; nothing is claimed of the generator.
#[verifier::external_body]
fn thread_rng() -> ThreadRng {
    rand::thread_rng()
}

/// Calls `Rng::gen_range(0..bound)`, which panics on an empty range. The
/// contract claims only that the result lies in the range; which number comes
/// back is left to chance.
#[verifier::external_body]
fn gen_index(rng: &mut ThreadRng, bound: usize) -> (r: usize)
    requires
        0 < bound,
    ensures
        r < bound,
{
    rng.gen_range(0..bound)
}

/// The password spelled by a sequence of positions in the character set.
pub fn password_from_indices(indices: &Vec<usize>) -> (r: String)
    requires
        forall|i: int| 0 <= i < indices.len() ==> indices[i] < PASSWORD_CHARSET_LEN,
    ensures
        r@.len() == indices.len(),
        forall|i: int| 0 <= i < indices.len() ==> r@[i] == password_char(indices[i] as int),
{
    let mut out = String::new();
    let mut k: usize = 0;
    while k < indices.len()
        invariant
            k <= indices.len(),
            forall|i: int| 0 <= i < indices.len() ==> indices[i] < PASSWORD_CHARSET_LEN,
            out@.len() == k,
            forall|i: int| 0 <= i < k ==> out@[i] == password_char(indices[i] as int),
        decreases indices.len() - k,
    {
        let c = charset_char(indices[k]);
        string_push(&mut out, c);
        k = k + 1;
    }
    out
}

/// A fresh temporary password: twelve characters drawn at random from ASCII
/// letters and digits.
pub fn generate_temp_password() -> (r: String)
    ensures
        r@.len() == TEMP_PASSWORD_LEN,
        forall|i: int| 0 <= i < r@.len() ==> ascii_alnum(#[trigger] r@[i]),
{
    let mut rng = thread_rng();
    let mut indices: Vec<usize> = Vec::new();
    let mut k: usize = 0;
    while k < TEMP_PASSWORD_LEN
        invariant
            k <= TEMP_PASSWORD_LEN,
            indices.len() == k,
            forall|i: int| 0 <= i < k ==> indices[i] < PASSWORD_CHARSET_LEN,
        decreases TEMP_PASSWORD_LEN - k,
    {
        let idx = gen_index(&mut rng, PASSWORD_CHARSET_LEN);
        indices.push(idx);
        k = k + 1;
    }
    let r = password_from_indices(&indices);
    assert forall|i: int| 0 <= i < r@.len() implies ascii_alnum(#[trigger] r@[i]) by {
        let j = indices[i];
        assert(r@[i] == password_char(j as int));
    }
    r
}

// ---------------------------------------------------------------- review state

/// Status of a request nobody has reviewed yet.
pub open spec fn pending_status() -> Seq<char> {
    "pending"@
}

/// Whether a request still waits for review.
pub open spec fn is_pending(request: ListingRequestModel) -> bool {
    request.status@ == pending_status()
}

/// Why a review step refused a request.
pub enum ReviewError {
    /// Approval or rejection of a request that was already reviewed.
    AlreadyProcessed,
    /// Edit of a request that was already reviewed.
    NotEditable,
}

impl ReviewError {
    /// The message the service answers with.
    pub fn message(&self) -> (r: &'static str)
        ensures
            self is AlreadyProcessed ==> r@ == "Listing request has already been processed."@,
            self is NotEditable ==> r@ == "Only pending requests can be edited."@,
    {
        match self {
            ReviewError::AlreadyProcessed => "Listing request has already been processed.",
            ReviewError::NotEditable => "Only pending requests can be edited.",
        }
    }
}

/// Whether a request is still pending.
pub fn check_pending(request: &ListingRequestModel) -> (r: bool)
    ensures
        r == is_pending(*request),
{
    str_eq(request.status.as_str(), "pending")
}

/// Admits a request to approval or rejection: only a pending one.
pub fn check_reviewable(request: &ListingRequestModel) -> (r: Result<(), ReviewError>)
    ensures
        r is Ok <==> is_pending(*request),
        r matches Err(e) ==> e is AlreadyProcessed,
{
    if check_pending(request) {
        Ok(())
    } else {
        Err(ReviewError::AlreadyProcessed)
    }
}

/// The request after a rejection by `admin_id` at `now`.
pub open spec fn rejected_request(
    before: ListingRequestModel,
    admin_id: i64,
    reason: Option<String>,
    now: Timestamp,
) -> ListingRequestModel {
    ListingRequestModel {
        reviewed_by: Some(admin_id),
        reviewed_at: Some(now),
        rejection_reason: reason,
        ..before
    }
}

/// Rejects a pending request: its status becomes `rejected`, and the
/// deciding admin, the time and the reason are kept on it.
pub fn reject(
    request: ListingRequestModel,
    admin_id: i64,
    reason: Option<String>,
    now: Timestamp,
) -> (r: Result<ListingRequestModel, ReviewError>)
    ensures
        r is Ok <==> is_pending(request),
        r matches Err(e) ==> e is AlreadyProcessed,
        r matches Ok(m) ==> m.status@ == "rejected"@ && m == (ListingRequestModel {
            status: m.status,
            ..rejected_request(request, admin_id, reason, now)
        }),
{
    match check_reviewable(&request) {
        Err(e) => Err(e),
        Ok(()) => {
            Ok(
                ListingRequestModel {
                    status: "rejected".to_owned(),
                    reviewed_by: Some(admin_id),
                    reviewed_at: Some(now),
                    rejection_reason: reason,
                    ..request
                },
            )
        },
    }
}

/// Rejects a pending request now: as `reject`, with the review time a
/// reading of the clock taken by the call.
pub fn reject_now(request: ListingRequestModel, admin_id: i64, reason: Option<String>) -> (r:
    Result<ListingRequestModel, ReviewError>)
    ensures
        r is Ok <==> is_pending(request),
        r matches Err(e) ==> e is AlreadyProcessed,
        r matches Ok(m) ==> m.status@ == "rejected"@ && (m.reviewed_at matches Some(t)
            && t.is_clock_reading()) && (exists|t: Timestamp|
            #![trigger rejected_request(request, admin_id, reason, t)]
            m == (ListingRequestModel {
                status: m.status,
                ..rejected_request(request, admin_id, reason, t)
            })),
{
    let now = Timestamp::now();
    reject(request, admin_id, reason, now)
}

/// Edits a pending request.
pub fn edit(
    request: ListingRequestModel,
    payload: crate::serializers::listing_requests::UpdateListingRequestSerializer,
) -> (r: Result<ListingRequestModel, ReviewError>)
    ensures
        r is Ok <==> is_pending(request),
        r matches Err(e) ==> e is NotEditable,
        r matches Ok(m) ==> m == crate::serializers::listing_requests::edited_request(
            request,
            payload,
        ),
{
    if check_pending(&request) {
        Ok(payload.apply_to(request))
    } else {
        Err(ReviewError::NotEditable)
    }
}

/// The request after its approval created retreat `retreat_id`.
pub open spec fn approved_request(
    before: ListingRequestModel,
    retreat_id: i64,
    admin_id: i64,
    now: Timestamp,
) -> ListingRequestModel {
    ListingRequestModel {
        retreat_id: Some(retreat_id),
        reviewed_by: Some(admin_id),
        reviewed_at: Some(now),
        ..before
    }
}

/// Records the approval of a pending request: its status becomes
/// `approved`, and the retreat it created, the deciding admin and the time are
/// kept on it.
pub fn mark_approved(
    request: ListingRequestModel,
    retreat_id: i64,
    admin_id: i64,
    now: Timestamp,
) -> (r: Result<ListingRequestModel, ReviewError>)
    ensures
        r is Ok <==> is_pending(request),
        r matches Err(e) ==> e is AlreadyProcessed,
        r matches Ok(m) ==> m.status@ == "approved"@ && m == (ListingRequestModel {
            status: m.status,
            ..approved_request(request, retreat_id, admin_id, now)
        }),
{
    match check_reviewable(&request) {
        Err(e) => Err(e),
        Ok(()) => {
            Ok(
                ListingRequestModel {
                    status: "approved".to_owned(),
                    retreat_id: Some(retreat_id),
                    reviewed_by: Some(admin_id),
                    reviewed_at: Some(now),
                    ..request
                },
            )
        },
    }
}

/// Records the approval of a pending request now: as `mark_approved`, with
/// the review time a reading of the clock taken by the call.
pub fn mark_approved_now(request: ListingRequestModel, retreat_id: i64, admin_id: i64) -> (r:
    Result<ListingRequestModel, ReviewError>)
    ensures
        r is Ok <==> is_pending(request),
        r matches Err(e) ==> e is AlreadyProcessed,
        r matches Ok(m) ==> m.status@ == "approved"@ && (m.reviewed_at matches Some(t)
            && t.is_clock_reading()) && (exists|t: Timestamp|
            #![trigger approved_request(request, retreat_id, admin_id, t)]
            m == (ListingRequestModel {
                status: m.status,
                ..approved_request(request, retreat_id, admin_id, t)
            })),
{
    let now = Timestamp::now();
    mark_approved(request, retreat_id, admin_id, now)
}

/// A reviewed request is final: once approved or rejected it is no longer
/// pending, so neither approval, rejection nor an edit accepts it again.
pub proof fn lemma_review_is_final(request: ListingRequestModel)
    requires
        request.status@ == "approved"@ || request.status@ == "rejected"@,
    ensures
        !is_pending(request),
{
    reveal_strlit("approved");
    reveal_strlit("rejected");
    reveal_strlit("pending");
    assert("approved"@[0] != "pending"@[0]);
    assert("rejected"@[0] != "pending"@[0]);
}

// ---------------------------------------------------------------- approval

/// The retreat an approval creates, before the database gives it an id.
pub struct NewRetreat {
    pub name: String,
    pub description: Option<String>,
    pub category_id: i64,
    pub slug: String,
    pub social_links: JsonValue,
    pub email: Option<String>,
    pub phone: Option<String>,
    pub latitude: Option<Decimal>,
    pub longitude: Option<Decimal>,
    pub address: Option<String>,
    pub budget_min: Option<Decimal>,
    pub budget_max: Option<Decimal>,
    pub is_published: bool,
    pub created_by: Option<i64>,
    pub updated_by: Option<i64>,
}

fn clone_opt(s: &Option<String>) -> (r: Option<String>)
    ensures
        r == *s,
{
    match s {
        Some(v) => Some(v.clone()),
        None => None,
    }
}

/// The published retreat an approval creates from a request: the request's
/// details, the chosen slug, an empty contact address or phone and a zero
/// latitude or longitude where the request gave none, and the approving
/// admin as its author.
pub fn retreat_from_request(request: &ListingRequestModel, slug: String, admin_id: i64) -> (r:
    NewRetreat)
    ensures
        r.name == request.retreat_name,
        r.description == request.retreat_description,
        r.category_id == request.category_id,
        r.slug == slug,
        r.social_links == request.social_links,
        r.email matches Some(e) && e@ == (match request.retreat_email {
            Some(x) => x@,
            None => Seq::<char>::empty(),
        }),
        r.phone matches Some(p) && p@ == (match request.retreat_phone {
            Some(x) => x@,
            None => Seq::<char>::empty(),
        }),
        r.latitude == Some(match request.latitude {
            Some(d) => d,
            None => decimal_of_int(0),
        }),
        r.longitude == Some(match request.longitude {
            Some(d) => d,
            None => decimal_of_int(0),
        }),
        r.address == request.address,
        r.budget_min == request.budget_min,
        r.budget_max == request.budget_max,
        r.is_published,
        r.created_by == Some(admin_id),
        r.updated_by == Some(admin_id),
{
    NewRetreat {
        name: request.retreat_name.clone(),
        description: clone_opt(&request.retreat_description),
        category_id: request.category_id,
        slug,
        social_links: clone_json(&request.social_links),
        email: Some(clone_opt(&request.retreat_email).unwrap_or_default()),
        phone: Some(clone_opt(&request.retreat_phone).unwrap_or_default()),
        latitude: Some(
            match request.latitude {
                Some(d) => d,
                None => decimal_from_int(0),
            },
        ),
        longitude: Some(
            match request.longitude {
                Some(d) => d,
                None => decimal_from_int(0),
            },
        ),
        address: clone_opt(&request.address),
        budget_min: request.budget_min,
        budget_max: request.budget_max,
        is_published: true,
        created_by: Some(admin_id),
        updated_by: Some(admin_id),
    }
}

/// A user account an approval creates for an owner without one.
pub struct NewUser {
    pub name: String,
    pub email: String,
    pub password: String,
    pub phone: Option<String>,
}

/// The owner account for a request whose owner has none: the request's
/// name, e-mail and phone, with the given password hash.
pub fn owner_account(request: &ListingRequestModel, hashed_password: String) -> (r: NewUser)
    ensures
        r.name == request.owner_name,
        r.email == request.owner_email,
        r.password == hashed_password,
        r.phone == request.owner_phone,
{
    NewUser {
        name: request.owner_name.clone(),
        email: request.owner_email.clone(),
        password: hashed_password,
        phone: clone_opt(&request.owner_phone),
    }
}

/// The owner an approval links to the new retreat.
pub struct ApprovedOwner {
    pub user_id: i64,
    pub email: String,
    /// Whether the approval created the account.
    pub is_new_user: bool,
}

/// The owner when an account with the request's e-mail already exists.
pub fn existing_owner(user: &User) -> (r: ApprovedOwner)
    ensures
        r.user_id == user.user_id,
        r.email == user.email,
        !r.is_new_user,
{
    ApprovedOwner { user_id: user.user_id, email: user.email.clone(), is_new_user: false }
}

/// The owner when the approval created the account.
pub fn created_owner(user: &User) -> (r: ApprovedOwner)
    ensures
        r.user_id == user.user_id,
        r.email == user.email,
        r.is_new_user,
{
    ApprovedOwner { user_id: user.user_id, email: user.email.clone(), is_new_user: true }
}

/// A staff membership that an approval or an admin creates.
pub struct NewRetreatUser {
    pub retreat_id: i64,
    pub user_id: i64,
    pub role: Option<String>,
    pub created_by: Option<i64>,
}

/// The membership that makes the owner `owner` of the new retreat.
pub fn owner_membership(retreat_id: i64, user_id: i64, admin_id: i64) -> (r: NewRetreatUser)
    ensures
        r.retreat_id == retreat_id,
        r.user_id == user_id,
        r.role matches Some(role) && role@ == "owner"@,
        r.created_by == Some(admin_id),
{
    NewRetreatUser {
        retreat_id,
        user_id,
        role: Some("owner".to_owned()),
        created_by: Some(admin_id),
    }
}

/// The answer to an approval: whether a new account was created decides it.
pub fn approval_message(is_new_user: bool) -> (r: &'static str)
    ensures
        is_new_user ==> r@ == "Listing approved. Retreat created. Email sent with credentials."@,
        !is_new_user ==> r@ == "Listing approved. Owner added to existing account."@,
{
    if is_new_user {
        "Listing approved. Retreat created. Email sent with credentials."
    } else {
        "Listing approved. Owner added to existing account."
    }
}

/// The temporary password the approval mail shows: the new owner's, and none
/// for an owner who already had an account.
pub fn mailed_password(owner: &ApprovedOwner, temp_password: &String) -> (r: Option<String>)
    ensures
        owner.is_new_user ==> r == Some(*temp_password),
        !owner.is_new_user ==> r is None,
{
    if owner.is_new_user {
        Some(temp_password.clone())
    } else {
        None
    }
}


// ---------------------------------------------------------------- approval order

/// Where an approval stands.
#[derive(PartialEq, Eq, Structural)]
pub enum ApprovalStage {
    /// The request is being loaded.
    Loading,
    /// The owner's account is being looked up by e-mail.
    FindingOwner,
    /// An account is being created for the owner.
    CreatingOwner,
    /// A free slug is being searched for.
    FindingSlug,
    /// The retreat is being inserted.
    CreatingRetreat,
    /// The owner's membership is being inserted.
    AddingMembership,
    /// The request is being marked approved.
    MarkingRequest,
    /// The approval is done; the mail goes out and the answer is sent.
    Finished,
    /// The request was refused; nothing was written.
    Refused,
}

/// What the outside work of an approval step reported.
#[derive(PartialEq, Eq, Structural)]
pub enum ApprovalEvent {
    /// The request was loaded; whether it is still pending.
    RequestLoaded(bool),
    /// The owner's e-mail was looked up; whether an account has it.
    OwnerLookedUp(bool),
    /// The owner's account was created.
    OwnerCreated,
    /// A free slug was found.
    SlugFound,
    /// The retreat was inserted.
    RetreatCreated,
    /// The membership was inserted.
    MembershipAdded,
    /// The request was marked approved.
    RequestMarked,
}

/// The outside work an approval asks for next.
#[derive(PartialEq, Eq, Structural)]
pub enum ApprovalAction {
    /// Answer that the request was already processed; write nothing.
    Refuse,
    /// Look the owner's e-mail up among the accounts.
    LookUpOwner,
    /// Create the owner's account with a temporary password.
    CreateOwner,
    /// Search for a free slug.
    FindSlug,
    /// Insert the retreat.
    CreateRetreat,
    /// Insert the owner's membership.
    AddMembership,
    /// Mark the request approved.
    MarkApproved,
    /// Send the mail and the answer.
    Answer,
}

/// Whether an action writes to the database.
pub open spec fn writes(a: ApprovalAction) -> bool {
    a is CreateOwner || a is CreateRetreat || a is AddMembership || a is MarkApproved
}

/// The order of an approval: the stage and action that follow an event at
/// a stage, or none where the event does not belong to the stage.
pub open spec fn approval_transition(stage: ApprovalStage, event: ApprovalEvent) -> Option<
    (ApprovalStage, ApprovalAction),
> {
    match (stage, event) {
        (ApprovalStage::Loading, ApprovalEvent::RequestLoaded(pending)) => if pending {
            Some((ApprovalStage::FindingOwner, ApprovalAction::LookUpOwner))
        } else {
            Some((ApprovalStage::Refused, ApprovalAction::Refuse))
        },
        (ApprovalStage::FindingOwner, ApprovalEvent::OwnerLookedUp(found)) => if found {
            Some((ApprovalStage::FindingSlug, ApprovalAction::FindSlug))
        } else {
            Some((ApprovalStage::CreatingOwner, ApprovalAction::CreateOwner))
        },
        (ApprovalStage::CreatingOwner, ApprovalEvent::OwnerCreated) => Some(
            (ApprovalStage::FindingSlug, ApprovalAction::FindSlug),
        ),
        (ApprovalStage::FindingSlug, ApprovalEvent::SlugFound) => Some(
            (ApprovalStage::CreatingRetreat, ApprovalAction::CreateRetreat),
        ),
        (ApprovalStage::CreatingRetreat, ApprovalEvent::RetreatCreated) => Some(
            (ApprovalStage::AddingMembership, ApprovalAction::AddMembership),
        ),
        (ApprovalStage::AddingMembership, ApprovalEvent::MembershipAdded) => Some(
            (ApprovalStage::MarkingRequest, ApprovalAction::MarkApproved),
        ),
        (ApprovalStage::MarkingRequest, ApprovalEvent::RequestMarked) => Some(
            (ApprovalStage::Finished, ApprovalAction::Answer),
        ),
        _ => None,
    }
}

/// The next step of an approval: from where it stands and what the last
/// outside work reported, where it goes and what it asks for; `None` for an
/// event that does not belong to the stage.
pub fn approval_step(stage: ApprovalStage, event: ApprovalEvent) -> (r: Option<
    (ApprovalStage, ApprovalAction),
>)
    ensures
        r == approval_transition(stage, event),
{
    match (stage, event) {
        (ApprovalStage::Loading, ApprovalEvent::RequestLoaded(pending)) => {
            if pending {
                Some((ApprovalStage::FindingOwner, ApprovalAction::LookUpOwner))
            } else {
                Some((ApprovalStage::Refused, ApprovalAction::Refuse))
            }
        },
        (ApprovalStage::FindingOwner, ApprovalEvent::OwnerLookedUp(found)) => {
            if found {
                Some((ApprovalStage::FindingSlug, ApprovalAction::FindSlug))
            } else {
                Some((ApprovalStage::CreatingOwner, ApprovalAction::CreateOwner))
            }
        },
        (ApprovalStage::CreatingOwner, ApprovalEvent::OwnerCreated) => Some(
            (ApprovalStage::FindingSlug, ApprovalAction::FindSlug),
        ),
        (ApprovalStage::FindingSlug, ApprovalEvent::SlugFound) => Some(
            (ApprovalStage::CreatingRetreat, ApprovalAction::CreateRetreat),
        ),
        (ApprovalStage::CreatingRetreat, ApprovalEvent::RetreatCreated) => Some(
            (ApprovalStage::AddingMembership, ApprovalAction::AddMembership),
        ),
        (ApprovalStage::AddingMembership, ApprovalEvent::MembershipAdded) => Some(
            (ApprovalStage::MarkingRequest, ApprovalAction::MarkApproved),
        ),
        (ApprovalStage::MarkingRequest, ApprovalEvent::RequestMarked) => Some(
            (ApprovalStage::Finished, ApprovalAction::Answer),
        ),
        _ => None,
    }
}

/// The actions of an approval that starts at `stage` and receives `events`
/// in turn; it stops at the first event that does not belong.
pub open spec fn approval_run(stage: ApprovalStage, events: Seq<ApprovalEvent>) -> Seq<
    ApprovalAction,
>
    decreases events.len(),
{
    if events.len() == 0 {
        seq![]
    } else {
        match approval_transition(stage, events[0]) {
            None => seq![],
            Some((next, action)) => seq![action] + approval_run(next, events.drop_first()),
        }
    }
}

proof fn lemma_refused_run_is_empty(events: Seq<ApprovalEvent>)
    ensures
        approval_run(ApprovalStage::Refused, events) == Seq::<ApprovalAction>::empty(),
{
}

/// An approval refuses before it writes: a request that is no longer
/// pending gets the refusal and nothing else, whatever is reported after.
pub proof fn lemma_refusal_writes_nothing(events: Seq<ApprovalEvent>)
    requires
        events.len() > 0,
        events[0] == ApprovalEvent::RequestLoaded(false),
    ensures
        approval_run(ApprovalStage::Loading, events) == seq![ApprovalAction::Refuse],
        forall|i: int|
            0 <= i < approval_run(ApprovalStage::Loading, events).len() ==> !writes(
                #[trigger] approval_run(ApprovalStage::Loading, events)[i],
            ),
{
    lemma_refused_run_is_empty(events.drop_first());
    assert(approval_run(ApprovalStage::Loading, events) =~= seq![ApprovalAction::Refuse]);
}

/// An approval creates an owner account only when none exists: wherever a
/// run asks to create the owner, the event just received reported that no
/// account has the owner's e-mail.
pub proof fn lemma_owner_created_only_when_absent(
    stage: ApprovalStage,
    events: Seq<ApprovalEvent>,
    i: int,
)
    requires
        0 <= i < approval_run(stage, events).len(),
        approval_run(stage, events)[i] == ApprovalAction::CreateOwner,
    ensures
        i < events.len(),
        events[i] == ApprovalEvent::OwnerLookedUp(false),
    decreases events.len(),
{
    if events.len() > 0 {
        match approval_transition(stage, events[0]) {
            None => {},
            Some((next, action)) => {
                let rest = approval_run(next, events.drop_first());
                assert(approval_run(stage, events) == seq![action] + rest);
                if i > 0 {
                    assert(approval_run(stage, events)[i] == rest[i - 1]);
                    lemma_owner_created_only_when_absent(next, events.drop_first(), i - 1);
                    assert(events.drop_first()[i - 1] == events[i]);
                }
            },
        }
    }
}

} // verus!
