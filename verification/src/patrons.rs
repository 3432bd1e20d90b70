//! The fetch of the patrons, step by step.
//!
//! The patron service is asked over the network, so the steps themselves are
//! not taken here. What is decided here is what to do next, given what the
//! last step brought: the caller starts with [`begin`], does what the
//! [`Action`] says, and hands what came of it to [`advance`], until the action
//! is [`Action::Finish`]. No answer makes the fetch fail: where a step that is
//! needed brings nothing, the fetch ends without patrons.

use crate::post::texts;
use vstd::prelude::*;

verus! {

/// What the fetch waits to be told.
#[derive(Clone, Copy, Debug, PartialEq, Eq, Structural)]
pub enum Stage {
    /// Whether the credential of the patron service is there.
    Credential,
    /// Whether the access token was refreshed.
    Token,
    /// The campaigns of the account.
    Campaigns,
    /// The pledges to the first campaign.
    Pledges,
    /// Nothing more: the fetch is over.
    Done,
}

/// What a step brought. `P` is what the service tells of the patrons; it is
/// handed on as it is.
#[derive(Debug)]
pub enum Answer<P> {
    /// The credential was looked for, and was there or not.
    Credential { present: bool },
    /// The refresh of the access token was tried, and went well or not.
    Token { refreshed: bool },
    /// The identifiers of the campaigns, or `None` where the lookup failed.
    Campaigns(Option<Vec<String>>),
    /// The patrons, or `None` where the lookup failed.
    Pledges(Option<P>),
}

/// What to do next.
#[derive(Debug)]
pub enum Action<P> {
    /// Look for the credential of the patron service.
    CheckCredential,
    /// Refresh the access token.
    RefreshToken,
    /// Ask for the campaigns of the account.
    ListCampaigns,
    /// Ask for the pledges to the campaign `campaign`.
    ListPledges { campaign: String },
    /// Stop: these are the patrons, or there are none to show.
    Finish(Option<P>),
}

/// An [`Answer`], with texts in place of strings.
pub enum AnswerView<P> {
    Credential { present: bool },
    Token { refreshed: bool },
    Campaigns(Option<Seq<Seq<char>>>),
    Pledges(Option<P>),
}

/// An [`Action`], with texts in place of strings.
pub enum ActionView<P> {
    CheckCredential,
    RefreshToken,
    ListCampaigns,
    ListPledges { campaign: Seq<char> },
    Finish(Option<P>),
}

impl<P> View for Answer<P> {
    type V = AnswerView<P>;

    open spec fn view(&self) -> AnswerView<P> {
        match *self {
            Answer::Credential { present } => AnswerView::Credential { present },
            Answer::Token { refreshed } => AnswerView::Token { refreshed },
            Answer::Campaigns(Some(ids)) => AnswerView::Campaigns(Some(texts(ids@))),
            Answer::Campaigns(None) => AnswerView::Campaigns(None),
            Answer::Pledges(patrons) => AnswerView::Pledges(patrons),
        }
    }
}

impl<P> View for Action<P> {
    type V = ActionView<P>;

    open spec fn view(&self) -> ActionView<P> {
        match *self {
            Action::CheckCredential => ActionView::CheckCredential,
            Action::RefreshToken => ActionView::RefreshToken,
            Action::ListCampaigns => ActionView::ListCampaigns,
            Action::ListPledges { campaign } => ActionView::ListPledges { campaign: campaign@ },
            Action::Finish(patrons) => ActionView::Finish(patrons),
        }
    }
}

/// The stage that follows `stage` on `answer`, and what to do then.
///
/// - Without a credential the fetch ends at once, without patrons.
/// - Whether the token was refreshed or not, the campaigns are asked for.
/// - Where the campaigns cannot be had, or there is none, the fetch ends
///   without patrons; else the pledges to the first campaign are asked for.
/// - The fetch ends with the patrons that the pledges brought, or without
///   any where they could not be had.
/// - An answer that the stage does not wait for ends the fetch without
///   patrons.
pub open spec fn step<P>(stage: Stage, answer: AnswerView<P>) -> (Stage, ActionView<P>) {
    match (stage, answer) {
        (Stage::Credential, AnswerView::Credential { present }) => if present {
            (Stage::Token, ActionView::RefreshToken)
        } else {
            (Stage::Done, ActionView::Finish(None))
        },
        (Stage::Token, AnswerView::Token { refreshed }) => (
            Stage::Campaigns,
            ActionView::ListCampaigns,
        ),
        (Stage::Campaigns, AnswerView::Campaigns(Some(ids))) => if ids.len() > 0 {
            (Stage::Pledges, ActionView::ListPledges { campaign: ids[0] })
        } else {
            (Stage::Done, ActionView::Finish(None))
        },
        (Stage::Pledges, AnswerView::Pledges(patrons)) => (Stage::Done, ActionView::Finish(patrons)),
        _ => (Stage::Done, ActionView::Finish(None)),
    }
}

/// How many answers a fetch at `stage` can still take before it is over.
pub open spec fn steps_left(stage: Stage) -> nat {
    match stage {
        Stage::Credential => 4,
        Stage::Token => 3,
        Stage::Campaigns => 2,
        Stage::Pledges => 1,
        Stage::Done => 0,
    }
}

/// What a fetch ends with, given what each step would bring: the patrons that
/// the pledges bring, where the credential is there and a campaign is listed;
/// nothing otherwise.
pub open spec fn outcome<P>(
    present: bool,
    campaigns: Option<Seq<Seq<char>>>,
    pledges: Option<P>,
) -> Option<P> {
    if present && campaigns is Some && campaigns->0.len() > 0 {
        pledges
    } else {
        None
    }
}

/// The action that a fetch ends with when it is run from the start and its
/// steps, as far as it asks for them, bring these answers.
pub open spec fn run<P>(
    present: bool,
    refreshed: bool,
    campaigns: Option<Seq<Seq<char>>>,
    pledges: Option<P>,
) -> ActionView<P> {
    let first = step::<P>(Stage::Credential, AnswerView::Credential { present });
    if first.0 == Stage::Done {
        first.1
    } else {
        let second = step::<P>(first.0, AnswerView::Token { refreshed });
        if second.0 == Stage::Done {
            second.1
        } else {
            let third = step::<P>(second.0, AnswerView::Campaigns(campaigns));
            if third.0 == Stage::Done {
                third.1
            } else {
                step::<P>(third.0, AnswerView::Pledges(pledges)).1
            }
        }
    }
}

/// Starts a fetch: the stage it is at, and what to do first.
pub fn begin<P>() -> (first: (Stage, Action<P>))
    ensures
        first.0 == Stage::Credential,
        first.1@ == ActionView::<P>::CheckCredential,
{
    (Stage::Credential, Action::CheckCredential)
}

/// Takes the answer to the last action and says where the fetch stands now
/// and what to do next.
pub fn advance<P>(stage: Stage, answer: Answer<P>) -> (next: (Stage, Action<P>))
    ensures
        next.0 == step(stage, answer@).0,
        next.1@ == step(stage, answer@).1,
{
    match (stage, answer) {
        (Stage::Credential, Answer::Credential { present }) => {
            if present {
                (Stage::Token, Action::RefreshToken)
            } else {
                (Stage::Done, Action::Finish(None))
            }
        },
        (Stage::Token, Answer::Token { refreshed }) => (Stage::Campaigns, Action::ListCampaigns),
        (Stage::Campaigns, Answer::Campaigns(Some(ids))) => {
            if ids.len() > 0 {
                let mut ids = ids;
                let campaign = ids.remove(0);
                (Stage::Pledges, Action::ListPledges { campaign })
            } else {
                (Stage::Done, Action::Finish(None))
            }
        },
        (Stage::Pledges, Answer::Pledges(patrons)) => (Stage::Done, Action::Finish(patrons)),
        _ => (Stage::Done, Action::Finish(None)),
    }
}

/// Every answer brings a fetch nearer to its end, and a fetch is told to
/// finish exactly when it is over.
pub proof fn lemma_fetch_ends<P>(stage: Stage, answer: AnswerView<P>)
    ensures
        stage != Stage::Done ==> steps_left(step(stage, answer).0) < steps_left(stage),
        step(stage, answer).1 is Finish <==> step(stage, answer).0 == Stage::Done,
{
}

/// A fetch ends with patrons only where the pledges brought them.
pub proof fn lemma_patrons_come_from_pledges<P>(stage: Stage, answer: AnswerView<P>, patrons: P)
    requires
        step(stage, answer).1 == ActionView::Finish(Some(patrons)),
    ensures
        stage == Stage::Pledges,
        answer == AnswerView::Pledges(Some(patrons)),
{
}

/// A fetch that is run from the start, and is told what each step brings as
/// long as it asks, ends with [`outcome`]: whether the token was refreshed
/// makes no difference, and every failure ends the fetch without patrons.
pub proof fn lemma_fetch_outcome<P>(
    present: bool,
    refreshed: bool,
    campaigns: Option<Seq<Seq<char>>>,
    pledges: Option<P>,
)
    ensures
        run(present, refreshed, campaigns, pledges) == ActionView::Finish(
            outcome(present, campaigns, pledges),
        ),
{
}

} // verus!
