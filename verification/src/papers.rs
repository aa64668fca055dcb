use vstd::prelude::*;

use crate::errors::ResearchError;
use crate::events::PaperPublishedEvent;
use crate::events::PaperSubmittedEvent;
use crate::platform::lemma_ledgers_ok_unchanged;
use crate::platform::lemma_paper_entries_ok;
use crate::platform::PlatformView;
use crate::platform::ResearchPlatform;
use crate::records::views_of;
use crate::records::AccountId;
use crate::records::PaperView;
use crate::records::ProgramState;
use crate::records::ResearchPaper;
use crate::records::MAX_ABSTRACT_LEN;
use crate::records::MAX_AUTHORS;
use crate::records::MAX_FUNDING_PERIOD_DAYS;
use crate::records::MAX_IPFS_HASH_LEN;
use crate::records::MAX_TITLE_LEN;
use crate::records::SECONDS_PER_DAY;
use crate::status::status_transition_allowed;
use crate::status::PaperStatus;

verus! {

/// Why `submit_paper` rejects, or `None` if it succeeds: the pause flag
/// first, then each field bound in order, then the goal floor, then the
/// period bound.
pub open spec fn submit_check(
    pre: PlatformView,
    title: Seq<u8>,
    abstract_text: Seq<u8>,
    ipfs_hash: Seq<u8>,
    authors: Seq<Seq<u8>>,
    funding_goal: u64,
    funding_period_days: u64,
) -> Option<ResearchError> {
    if pre.state.is_paused {
        Some(ResearchError::ProgramPaused)
    } else if title.len() == 0 || title.len() > MAX_TITLE_LEN {
        Some(ResearchError::InvalidTitle)
    } else if abstract_text.len() == 0 || abstract_text.len() > MAX_ABSTRACT_LEN {
        Some(ResearchError::InvalidAbstract)
    } else if ipfs_hash.len() == 0 || ipfs_hash.len() > MAX_IPFS_HASH_LEN {
        Some(ResearchError::InvalidIPFSHash)
    } else if authors.len() == 0 || authors.len() > MAX_AUTHORS {
        Some(ResearchError::InvalidAuthors)
    } else if funding_goal < pre.state.min_funding_goal {
        Some(ResearchError::FundingGoalTooLow)
    } else if funding_period_days == 0 || funding_period_days > MAX_FUNDING_PERIOD_DAYS {
        Some(ResearchError::InvalidFundingPeriod)
    } else {
        None
    }
}

/// The paper record a successful `submit_paper` creates: the next id from
/// the counter, the given fields, zero funding and votes, status `Draft`,
/// and a deadline `funding_period_days` days from `now`.
pub open spec fn submitted_paper(
    pre: PlatformView,
    author: AccountId,
    title: Seq<u8>,
    abstract_text: Seq<u8>,
    ipfs_hash: Seq<u8>,
    authors: Seq<Seq<u8>>,
    funding_goal: u64,
    funding_period_days: u64,
    now: i64,
) -> PaperView {
    PaperView {
        id: pre.state.paper_count,
        author,
        title,
        abstract_text,
        ipfs_hash,
        authors,
        created_at: now,
        updated_at: now,
        is_published: false,
        funding_goal,
        funding_current: 0,
        funding_deadline: (now + funding_period_days * SECONDS_PER_DAY) as i64,
        upvotes: 0,
        downvotes: 0,
        status: PaperStatus::Draft,
        review_score: 0,
        review_count: 0,
    }
}

/// The state after a successful `submit_paper`: the counter advances, the
/// new paper is appended, and its escrow balance starts at zero.
pub open spec fn submit_apply(
    pre: PlatformView,
    author: AccountId,
    title: Seq<u8>,
    abstract_text: Seq<u8>,
    ipfs_hash: Seq<u8>,
    authors: Seq<Seq<u8>>,
    funding_goal: u64,
    funding_period_days: u64,
    now: i64,
) -> PlatformView {
    PlatformView {
        state: ProgramState { paper_count: (pre.state.paper_count + 1) as u64, ..pre.state },
        papers: pre.papers.push(
            submitted_paper(
                pre,
                author,
                title,
                abstract_text,
                ipfs_hash,
                authors,
                funding_goal,
                funding_period_days,
                now,
            ),
        ),
        escrow_balances: pre.escrow_balances.push(0),
        ..pre
    }
}

/// Why `publish_paper` rejects, or `None` if it succeeds: the pause flag,
/// then authorization (author or admin), then the status, which must be
/// exactly `Draft`.
pub open spec fn publish_check(pre: PlatformView, caller: AccountId, paper_id: int) -> Option<
    ResearchError,
> {
    let p = pre.papers[paper_id];
    if pre.state.is_paused {
        Some(ResearchError::ProgramPaused)
    } else if p.author != caller && pre.state.admin != caller {
        Some(ResearchError::Unauthorized)
    } else if p.status != PaperStatus::Draft {
        Some(ResearchError::InvalidPaperStatus)
    } else {
        None
    }
}

/// The state after a successful `publish_paper`: the paper moves to
/// `Published` and its update timestamp advances.
pub open spec fn publish_apply(pre: PlatformView, paper_id: int, now: i64) -> PlatformView {
    let p = pre.papers[paper_id];
    PlatformView {
        papers: pre.papers.update(
            paper_id,
            PaperView {
                is_published: true,
                status: PaperStatus::Published,
                updated_at: now,
                ..p
            },
        ),
        ..pre
    }
}

/// An exact copy of a byte vector.
fn clone_bytes(v: &Vec<u8>) -> (r: Vec<u8>)
    ensures
        r@ == v@,
{
    let mut r: Vec<u8> = Vec::new();
    let mut k: usize = 0;
    while k < v.len()
        invariant
            k <= v@.len(),
            r@ == v@.subrange(0, k as int),
        decreases v@.len() - k,
    {
        r.push(v[k]);
        proof {
            assert(r@ =~= v@.subrange(0, k + 1));
        }
        k = k + 1;
    }
    proof {
        assert(r@ =~= v@);
    }
    r
}

impl ResearchPlatform {
    /// Registers a new research proposal.
    ///
    /// Rejected, creating nothing, while the registry is paused or when a
    /// field violates its bound; on success the paper is created in
    /// `Draft` with the next id, zero funding and votes, and a deadline
    /// `funding_period_days` days past `now`, and the submission event is
    /// returned.
    pub fn submit_paper(
        &mut self,
        author: AccountId,
        title: Vec<u8>,
        abstract_text: Vec<u8>,
        ipfs_hash: Vec<u8>,
        authors: Vec<Vec<u8>>,
        funding_goal: u64,
        funding_period_days: u64,
        now: i64,
    ) -> (res: Result<PaperSubmittedEvent, ResearchError>)
        requires
            old(self).wf(),
            old(self)@.state.paper_count < u64::MAX,
            now <= i64::MAX - MAX_FUNDING_PERIOD_DAYS * SECONDS_PER_DAY,
        ensures
            final(self).wf(),
            (match submit_check(
                old(self)@,
                title@,
                abstract_text@,
                ipfs_hash@,
                views_of(authors@),
                funding_goal,
                funding_period_days,
            ) {
                Some(e) => res matches Err(err) && err == e && final(self)@ == old(self)@,
                None => {
                    &&& final(self)@ == submit_apply(
                        old(self)@,
                        author,
                        title@,
                        abstract_text@,
                        ipfs_hash@,
                        views_of(authors@),
                        funding_goal,
                        funding_period_days,
                        now,
                    )
                    &&& res matches Ok(ev) && ev.paper_id == old(self)@.state.paper_count
                        && ev.author == author && ev.title@ == title@ && ev.timestamp == now
                },
            }),
            old(self)@.state.total_funding <= final(self)@.state.total_funding,
            forall|i: int|
                0 <= i < old(self)@.papers.len() ==> old(self)@.papers[i].funding_current <= (
                #[trigger] final(self)@.papers[i]).funding_current,
    {
        if self.state.is_paused {
            return Err(ResearchError::ProgramPaused);
        }
        if title.len() == 0 || title.len() > MAX_TITLE_LEN {
            return Err(ResearchError::InvalidTitle);
        }
        if abstract_text.len() == 0 || abstract_text.len() > MAX_ABSTRACT_LEN {
            return Err(ResearchError::InvalidAbstract);
        }
        if ipfs_hash.len() == 0 || ipfs_hash.len() > MAX_IPFS_HASH_LEN {
            return Err(ResearchError::InvalidIPFSHash);
        }
        if authors.len() == 0 || authors.len() > MAX_AUTHORS {
            return Err(ResearchError::InvalidAuthors);
        }
        if funding_goal < self.state.min_funding_goal {
            return Err(ResearchError::FundingGoalTooLow);
        }
        if funding_period_days == 0 || funding_period_days > MAX_FUNDING_PERIOD_DAYS {
            return Err(ResearchError::InvalidFundingPeriod);
        }
        let seconds: u64 = funding_period_days * SECONDS_PER_DAY;
        let funding_deadline: i64 = now + (seconds as i64);
        let paper_id = self.state.paper_count;
        self.state.paper_count = paper_id + 1;
        let title_stored = clone_bytes(&title);
        let paper = ResearchPaper {
            id: paper_id,
            author,
            title: title_stored,
            abstract_text,
            ipfs_hash,
            authors,
            created_at: now,
            updated_at: now,
            is_published: false,
            funding_goal,
            funding_current: 0,
            funding_deadline,
            upvotes: 0,
            downvotes: 0,
            status: PaperStatus::Draft,
            review_score: 0,
            review_count: 0,
        };
        self.papers.push(paper);
        self.escrow_balances.push(0);
        proof {
            let pre = old(self)@;
            let post = self@;
            assert(post =~~= submit_apply(
                pre,
                author,
                title@,
                abstract_text@,
                ipfs_hash@,
                views_of(authors@),
                funding_goal,
                funding_period_days,
                now,
            ));
            assert(post.paper_entry_ok(pre.papers.len() as int));
            lemma_paper_entries_ok(pre, post, pre.papers.len() as int);
            lemma_ledgers_ok_unchanged(pre, post);
        }
        Ok(PaperSubmittedEvent { paper_id, author, title, timestamp: now })
    }

    /// Publishes a `Draft` paper, making it eligible for funding and
    /// voting. The caller must be the paper's author or the admin; the
    /// registry must not be paused; the status must be exactly `Draft`.
    pub fn publish_paper(&mut self, caller: AccountId, paper_id: u64, now: i64) -> (res: Result<
        PaperPublishedEvent,
        ResearchError,
    >)
        requires
            old(self).wf(),
            paper_id < old(self)@.papers.len(),
        ensures
            final(self).wf(),
            (match publish_check(old(self)@, caller, paper_id as int) {
                Some(e) => res == Err::<PaperPublishedEvent, ResearchError>(e) && final(self)@
                    == old(self)@,
                None => res == Ok::<PaperPublishedEvent, ResearchError>(
                    (PaperPublishedEvent {
                        paper_id,
                        author: old(self)@.papers[paper_id as int].author,
                        timestamp: now,
                    }),
                ) && final(self)@ == publish_apply(old(self)@, paper_id as int, now),
            }),
            res is Ok ==> status_transition_allowed(
                old(self)@.papers[paper_id as int].status,
                final(self)@.papers[paper_id as int].status,
            ),
            old(self)@.state.total_funding <= final(self)@.state.total_funding,
            forall|i: int|
                0 <= i < old(self)@.papers.len() ==> old(self)@.papers[i].funding_current <= (
                #[trigger] final(self)@.papers[i]).funding_current,
    {
        let paper_count: usize = self.papers.len();
        let idx = paper_id as usize;
        proof {
            assert(idx < paper_count);
        }
        if self.state.is_paused {
            return Err(ResearchError::ProgramPaused);
        }
        if self.papers[idx].author != caller && self.state.admin != caller {
            return Err(ResearchError::Unauthorized);
        }
        if self.papers[idx].status != PaperStatus::Draft {
            return Err(ResearchError::InvalidPaperStatus);
        }
        let paper = &mut self.papers[idx];
        paper.is_published = true;
        paper.status = PaperStatus::Published;
        paper.updated_at = now;
        let event = PaperPublishedEvent { paper_id: paper.id, author: paper.author, timestamp: now };
        proof {
            let pre = old(self)@;
            let post = self@;
            assert(pre.paper_entry_ok(paper_id as int));
            assert(post =~~= publish_apply(pre, paper_id as int, now));
            assert(event == (PaperPublishedEvent {
                paper_id,
                author: pre.papers[paper_id as int].author,
                timestamp: now,
            }));
            assert(post.paper_entry_ok(paper_id as int));
            lemma_paper_entries_ok(pre, post, paper_id as int);
            lemma_ledgers_ok_unchanged(pre, post);
        }
        Ok(event)
    }
}

} // verus!
