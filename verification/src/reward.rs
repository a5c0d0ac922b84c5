//! The award that a check-in earned, and the notice of it.

use crate::api::{Award, InfoData};
use crate::error::AgentError;
use crate::notify::{notify_success, posted, success_body, PostView, WebhookPost};
use crate::text::{append_signed, decimal_text};
use vstd::prelude::*;
use vstd::string::*;

verus! {

/// What a check-in earned, with the counts of the account after it.
#[derive(Debug, PartialEq, Eq)]
pub struct Reward {
    /// Days checked in so far, today included.
    pub days: i32,
    /// Days missed so far.
    pub missed: i32,
    /// How many of the item were awarded.
    pub count: i32,
    /// The item's name.
    pub name: String,
    /// The address of the item's picture.
    pub icon: String,
}

/// The award of the day that `info` reports: the award of day `n` is the
/// `n`-th of the list, so it stands at position `n - 1`. A day without such a
/// position is an error that names the position.
pub open spec fn reward_of(awards: Seq<Award>, info: InfoData) -> Result<Reward, AgentError> {
    let index = info.total_sign_day - 1;
    if 0 <= index < awards.len() {
        Ok(
            Reward {
                days: info.total_sign_day,
                missed: info.sign_cnt_missed,
                count: awards[index].cnt,
                name: awards[index].name,
                icon: awards[index].icon,
            },
        )
    } else {
        Err(AgentError::AwardIndex(index as i64))
    }
}

impl Reward {
    /// The title of the notice: the count, an `x`, and the item's name.
    pub open spec fn title(self) -> Seq<char> {
        decimal_text(self.count as int) + "x "@ + self.name@
    }

    /// The body of the notice: the days checked in and the days missed.
    pub open spec fn summary(self) -> Seq<char> {
        "**Check-in successful!**\nTimes checked in: `"@ + decimal_text(self.days as int)
            + "`\nCheck-ins missed: `"@ + decimal_text(self.missed as int) + "`"@
    }

    /// What is posted to announce this reward.
    pub open spec fn notice(self, webhook: Option<Seq<char>>) -> Option<PostView> {
        posted(webhook, success_body(self.title(), self.summary(), self.icon@))
    }

    /// Announces the reward to the webhook, where there is one.
    pub fn announce(&self, webhook_url: &Option<String>) -> (r: Option<WebhookPost>)
        ensures
            r.deep_view() == self.notice(webhook_url.deep_view()),
    {
        let mut title = String::new();
        append_signed(&mut title, self.count as i64);
        title.append("x ");
        title.append(self.name.as_str());
        assert(title@ =~= self.title());
        let mut body = String::from_str("**Check-in successful!**\nTimes checked in: `");
        append_signed(&mut body, self.days as i64);
        body.append("`\nCheck-ins missed: `");
        append_signed(&mut body, self.missed as i64);
        body.append("`");
        notify_success(webhook_url, title, body, self.icon.clone())
    }
}

/// Looks up the award of the day that `info` reports.
pub fn current_reward(awards: &Vec<Award>, info: &InfoData) -> (r: Result<Reward, AgentError>)
    ensures
        r == reward_of(awards@, *info),
{
    let index: i64 = info.total_sign_day as i64 - 1;
    if index < 0 || index as u64 >= awards.len() as u64 {
        return Err(AgentError::AwardIndex(index));
    }
    let award = &awards[index as usize];
    Ok(
        Reward {
            days: info.total_sign_day,
            missed: info.sign_cnt_missed,
            count: award.cnt,
            name: award.name.clone(),
            icon: award.icon.clone(),
        },
    )
}

/// What follows a check-in that went through: the reward of the day, and
/// the notice of it for the webhook.
pub open spec fn signed_notice(
    webhook: Option<Seq<char>>,
    awards: Seq<Award>,
    info: InfoData,
) -> Result<(Reward, Option<PostView>), AgentError> {
    match reward_of(awards, info) {
        Ok(reward) => Ok((reward, reward.notice(webhook))),
        Err(e) => Err(e),
    }
}

/// Finds the reward of a check-in that went through and prepares the notice
/// of it.
pub fn notify_signed(webhook_url: &Option<String>, awards: &Vec<Award>, info: &InfoData) -> (r:
    Result<(Reward, Option<WebhookPost>), AgentError>)
    ensures
        match r {
            Ok((reward, post)) => signed_notice(webhook_url.deep_view(), awards@, *info) == Ok::<
                (Reward, Option<PostView>),
                AgentError,
            >((reward, post.deep_view())),
            Err(e) => signed_notice(webhook_url.deep_view(), awards@, *info) == Err::<
                (Reward, Option<PostView>),
                AgentError,
            >(e),
        },
{
    match current_reward(awards, info) {
        Ok(reward) => {
            let post = reward.announce(webhook_url);
            Ok((reward, post))
        },
        Err(e) => Err(e),
    }
}

/// The award of day `n` is the one at position `n - 1`, where the list has
/// that many; on every other day the lookup fails.
pub proof fn lemma_reward_position(awards: Seq<Award>, info: InfoData)
    ensures
        1 <= info.total_sign_day <= awards.len() ==> (reward_of(awards, info) matches Ok(reward)
            && reward.name == awards[info.total_sign_day - 1].name && reward.icon
            == awards[info.total_sign_day - 1].icon && reward.count == awards[info.total_sign_day
            - 1].cnt),
        !(1 <= info.total_sign_day <= awards.len()) ==> reward_of(awards, info) is Err,
{
}

} // verus!
