use vstd::prelude::*;

verus! {

/// One vote of a user on a comment; the pair of ids is the row's key.
#[derive(Clone, Copy, Debug, PartialEq, Eq, Structural)]
pub struct CommentRate {
    pub comment_id: i32,
    pub user_id: i32,
    pub rate: i32,
}

pub const UPVOTE: i32 = 1;

pub const DOWNVOTE: i32 = -1;

/// A vote is either an upvote or a downvote.
pub open spec fn is_valid_rate(rate: i32) -> bool {
    rate == UPVOTE || rate == DOWNVOTE
}

pub fn rate_is_valid(rate: i32) -> (r: bool)
    ensures
        r == is_valid_rate(rate),
{
    rate == UPVOTE || rate == DOWNVOTE
}

/// Number of rows of `rows` that vote `rate` on comment `comment_id`.
pub open spec fn count_votes(rows: Seq<CommentRate>, comment_id: i32, rate: i32) -> nat
    decreases rows.len(),
{
    if rows.len() == 0 {
        0
    } else {
        count_votes(rows.drop_last(), comment_id, rate) + if rows.last().comment_id == comment_id
            && rows.last().rate == rate {
            1nat
        } else {
            0nat
        }
    }
}

/// The cached counters of a comment.
#[derive(Clone, Copy, Debug, PartialEq, Eq, Structural)]
pub struct Tally {
    pub upvotes: i32,
    pub downvotes: i32,
}

/// The counters that the vote rows `rows` give to comment `comment_id`.
pub open spec fn recount(rows: Seq<CommentRate>, comment_id: i32) -> (int, int) {
    (count_votes(rows, comment_id, UPVOTE) as int, count_votes(rows, comment_id, DOWNVOTE) as int)
}

impl Tally {
    pub open spec fn counts(self) -> (int, int) {
        (self.upvotes as int, self.downvotes as int)
    }
}

pub proof fn lemma_count_bounded(rows: Seq<CommentRate>, comment_id: i32, rate: i32)
    ensures
        count_votes(rows, comment_id, rate) <= rows.len(),
    decreases rows.len(),
{
    if rows.len() > 0 {
        lemma_count_bounded(rows.drop_last(), comment_id, rate);
    }
}

/// Counts the upvotes and downvotes on `comment_id` among `rows`.
pub fn tally_of(rows: &Vec<CommentRate>, comment_id: i32) -> (t: Tally)
    requires
        rows@.len() <= i32::MAX,
    ensures
        t.counts() == recount(rows@, comment_id),
{
    let mut up: i32 = 0;
    let mut down: i32 = 0;
    let mut i: usize = 0;
    while i < rows.len()
        invariant
            i <= rows@.len(),
            rows@.len() <= i32::MAX,
            up as int == count_votes(rows@.take(i as int), comment_id, UPVOTE),
            down as int == count_votes(rows@.take(i as int), comment_id, DOWNVOTE),
        decreases rows@.len() - i,
    {
        proof {
            assert(rows@.take(i as int + 1).drop_last() =~= rows@.take(i as int));
            lemma_count_bounded(rows@.take(i as int), comment_id, UPVOTE);
            lemma_count_bounded(rows@.take(i as int), comment_id, DOWNVOTE);
        }
        let row = rows[i];
        if row.comment_id == comment_id {
            if row.rate == UPVOTE {
                up = up + 1;
            } else if row.rate == DOWNVOTE {
                down = down + 1;
            }
        }
        i = i + 1;
    }
    proof {
        assert(rows@.take(i as int) =~= rows@);
    }
    Tally { upvotes: up, downvotes: down }
}

/// A change of the vote table: a new vote, a changed vote, or a vote taken back.
#[derive(Clone, Copy, Debug, PartialEq, Eq, Structural)]
pub enum VoteRequest {
    Create(CommentRate),
    Update(CommentRate),
    Delete { comment_id: i32, user_id: i32 },
}

impl VoteRequest {
    /// The comment whose counters the change affects.
    pub open spec fn comment(self) -> i32 {
        match self {
            VoteRequest::Create(r) => r.comment_id,
            VoteRequest::Update(r) => r.comment_id,
            VoteRequest::Delete { comment_id, .. } => comment_id,
        }
    }

    /// The request carries an acceptable rate (a removal carries none).
    pub open spec fn has_valid_rate(self) -> bool {
        match self {
            VoteRequest::Create(r) => is_valid_rate(r.rate),
            VoteRequest::Update(r) => is_valid_rate(r.rate),
            VoteRequest::Delete { .. } => true,
        }
    }

    pub fn comment_id(&self) -> (c: i32)
        ensures
            c == self.comment(),
    {
        match self {
            VoteRequest::Create(r) => r.comment_id,
            VoteRequest::Update(r) => r.comment_id,
            VoteRequest::Delete { comment_id, .. } => *comment_id,
        }
    }
}

pub open spec fn has_key(row: CommentRate, comment_id: i32, user_id: i32) -> bool {
    row.comment_id == comment_id && row.user_id == user_id
}

/// The vote table after a successful write of `req` on `rows`.
pub open spec fn rows_after(rows: Seq<CommentRate>, req: VoteRequest) -> Seq<CommentRate> {
    match req {
        VoteRequest::Create(r) => rows.push(r),
        VoteRequest::Update(r) => rows.map_values(
            |x: CommentRate|
                if has_key(x, r.comment_id, r.user_id) {
                    r
                } else {
                    x
                },
        ),
        VoteRequest::Delete { comment_id, user_id } => rows.filter(
            |x: CommentRate| !has_key(x, comment_id, user_id),
        ),
    }
}

/// Every comment's cached counters equal the live counts of its vote rows.
pub open spec fn counters_agree(rows: Seq<CommentRate>, counters: Map<i32, (int, int)>) -> bool {
    forall|c: i32| #[trigger] counters.contains_key(c) ==> counters[c] == recount(rows, c)
}

/// Table and counters after serving `reqs` one after another, each write
/// followed by a recount of the comment it touched.
pub open spec fn serve_all(
    rows: Seq<CommentRate>,
    counters: Map<i32, (int, int)>,
    reqs: Seq<VoteRequest>,
) -> (Seq<CommentRate>, Map<i32, (int, int)>)
    decreases reqs.len(),
{
    if reqs.len() == 0 {
        (rows, counters)
    } else {
        let (r0, c0) = serve_all(rows, counters, reqs.drop_last());
        let req = reqs.last();
        let r1 = rows_after(r0, req);
        (r1, c0.insert(req.comment(), recount(r1, req.comment())))
    }
}

proof fn lemma_update_keeps_other_counts(
    rows: Seq<CommentRate>,
    r: CommentRate,
    c: i32,
    rate: i32,
)
    requires
        c != r.comment_id,
    ensures
        count_votes(rows_after(rows, VoteRequest::Update(r)), c, rate) == count_votes(rows, c, rate),
    decreases rows.len(),
{
    if rows.len() > 0 {
        let after = rows_after(rows, VoteRequest::Update(r));
        assert(after.drop_last() =~= rows_after(rows.drop_last(), VoteRequest::Update(r)));
        lemma_update_keeps_other_counts(rows.drop_last(), r, c, rate);
    }
}

proof fn lemma_delete_keeps_other_counts(
    rows: Seq<CommentRate>,
    comment_id: i32,
    user_id: i32,
    c: i32,
    rate: i32,
)
    requires
        c != comment_id,
    ensures
        count_votes(rows_after(rows, VoteRequest::Delete { comment_id, user_id }), c, rate)
            == count_votes(rows, c, rate),
    decreases rows.len(),
{
    if rows.len() > 0 {
        let req = VoteRequest::Delete { comment_id, user_id };
        reveal_with_fuel(Seq::<_>::filter, 1);
        assert(rows_after(rows, req) == ({
            let sub = rows_after(rows.drop_last(), req);
            if !has_key(rows.last(), comment_id, user_id) {
                sub.push(rows.last())
            } else {
                sub
            }
        }));
        lemma_delete_keeps_other_counts(rows.drop_last(), comment_id, user_id, c, rate);
        if !has_key(rows.last(), comment_id, user_id) {
            assert(rows_after(rows.drop_last(), req).push(rows.last()).drop_last() =~= rows_after(
                rows.drop_last(),
                req,
            ));
        }
    }
}

/// A write touches the counts of its own comment only.
pub proof fn lemma_write_keeps_other_counts(
    rows: Seq<CommentRate>,
    req: VoteRequest,
    c: i32,
    rate: i32,
)
    requires
        c != req.comment(),
    ensures
        count_votes(rows_after(rows, req), c, rate) == count_votes(rows, c, rate),
{
    match req {
        VoteRequest::Create(r) => {
            assert(rows.push(r).drop_last() =~= rows);
        },
        VoteRequest::Update(r) => lemma_update_keeps_other_counts(rows, r, c, rate),
        VoteRequest::Delete { comment_id, user_id } => lemma_delete_keeps_other_counts(
            rows,
            comment_id,
            user_id,
            c,
            rate,
        ),
    }
}

/// The rows of one comment, as the store hands them back for a recount.
pub open spec fn rows_of_comment(rows: Seq<CommentRate>, comment_id: i32) -> Seq<CommentRate> {
    rows.filter(|x: CommentRate| x.comment_id == comment_id)
}

/// Recounting the rows of one comment gives that comment the same counters
/// as recounting the whole vote table.
pub proof fn lemma_recount_of_comment_rows(rows: Seq<CommentRate>, comment_id: i32)
    ensures
        recount(rows_of_comment(rows, comment_id), comment_id) == recount(rows, comment_id),
    decreases rows.len(),
{
    if rows.len() > 0 {
        reveal_with_fuel(Seq::<_>::filter, 1);
        lemma_recount_of_comment_rows(rows.drop_last(), comment_id);
        let sub = rows_of_comment(rows.drop_last(), comment_id);
        assert(sub.push(rows.last()).drop_last() =~= sub);
    }
}

/// When vote writes are served one at a time, each followed by a recount of
/// the comment it touched, every comment's counters keep equal to the live
/// number of its upvote rows and of its downvote rows.
pub proof fn lemma_serialized_writes_keep_counters(
    rows: Seq<CommentRate>,
    counters: Map<i32, (int, int)>,
    reqs: Seq<VoteRequest>,
)
    requires
        counters_agree(rows, counters),
    ensures
        counters_agree(serve_all(rows, counters, reqs).0, serve_all(rows, counters, reqs).1),
    decreases reqs.len(),
{
    if reqs.len() > 0 {
        lemma_serialized_writes_keep_counters(rows, counters, reqs.drop_last());
        let (r0, c0) = serve_all(rows, counters, reqs.drop_last());
        let req = reqs.last();
        let r1 = rows_after(r0, req);
        let c1 = c0.insert(req.comment(), recount(r1, req.comment()));
        assert forall|c: i32| #[trigger] c1.contains_key(c) implies c1[c] == recount(r1, c) by {
            if c != req.comment() {
                lemma_write_keeps_other_counts(r0, req, c, UPVOTE);
                lemma_write_keeps_other_counts(r0, req, c, DOWNVOTE);
            }
        }
    }
}

} // verus!
