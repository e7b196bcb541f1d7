//! The messages that announce a kenneling.
//!
//! A guild writes its messages with marks in them: `$victim` for the one
//! kenneled, `$kenneler` for the one who did it, `$time` for the length and
//! `$return` for the time of release. A mark may stand anywhere, any number
//! of times or not at all.

use vstd::prelude::*;
use crate::ids::ChannelId;
use crate::ids::UserId;
use crate::text::chars_of;
use crate::text::decimal;
use crate::text::push_all;
use crate::text::push_decimal;
use crate::text::marks_of;
use crate::text::substitute;
use crate::text::substituted;
use crate::text::string_of;
use crate::types::kenneling::NewKenneling;
use crate::util::pgint_dur::Span;
use crate::util::stefan_traits::relative_mark;
use crate::util::stefan_traits::relative_timestamp;

verus! {

/// The text that makes a client show the member `id` by name.
pub open spec fn mention(id: u64) -> Seq<char> {
    "<@"@ + decimal(id as nat) + ">"@
}

/// The marks of a message and what is written for each.
pub open spec fn message_marks(
    victim_id: UserId,
    author_id: UserId,
    time: Seq<char>,
    return_time: Seq<char>,
) -> Seq<(Seq<char>, Seq<char>)> {
    seq![
        ("$victim"@, mention(victim_id.0)),
        ("$kenneler"@, mention(author_id.0)),
        ("$time"@, time),
        ("$return"@, return_time),
    ]
}

/// `message` with its marks filled in, in one reading from the left: where
/// a mark stands its value is written, and the reading goes on behind the
/// mark, so that what was written for one mark is never taken for another.
pub open spec fn formatted_message(
    message: Seq<char>,
    victim_id: UserId,
    author_id: UserId,
    time: Seq<char>,
    return_time: Seq<char>,
) -> Seq<char> {
    substituted(message, message_marks(victim_id, author_id, time, return_time))
}

/// Writes the text that shows member `id` by name.
pub fn mention_of(id: u64) -> (text: Vec<char>)
    ensures
        text@ == mention(id),
{
    let mut out = chars_of("<@");
    push_decimal(&mut out, id as u128);
    push_all(&mut out, &chars_of(">"));
    out
}

/// Fills in the marks of `message`.
pub fn get_formatted_message(
    message: &str,
    victim_id: &UserId,
    author_id: &UserId,
    time: &str,
    return_time: &str,
) -> (text: String)
    ensures
        text@ == formatted_message(message@, *victim_id, *author_id, time@, return_time@),
{
    let mut marks: Vec<(Vec<char>, Vec<char>)> = Vec::new();
    marks.push((chars_of("$victim"), mention_of(victim_id.0)));
    marks.push((chars_of("$kenneler"), mention_of(author_id.0)));
    marks.push((chars_of("$time"), chars_of(time)));
    marks.push((chars_of("$return"), chars_of(return_time)));
    assert(marks_of(marks@) =~= message_marks(*victim_id, *author_id, time@, return_time@));
    string_of(&substitute(&chars_of(message), &marks))
}

/// How `humantime::format_duration` writes a length of `secs` seconds and
/// `nanos` nanoseconds, such as `2h 37m`.
pub uninterp spec fn formatted_duration(secs: u64, nanos: u32) -> Seq<char>;

/// Calls `humantime::format_duration` on the `Duration` that `span` stands
/// for, and takes the text that it displays.
///
/// Not proved: that the text is `formatted_duration` of the seconds and
/// nanoseconds, which is to say that the same length is always written in
/// the same way.
#[verifier::external_body]
fn format_duration_text(span: Span) -> (text: String)
    requires
        span.wf(),
    ensures
        text@ == formatted_duration(span.secs, span.nanos),
{
    humantime::format_duration(std::time::Duration::new(span.secs, span.nanos)).to_string()
}

/// What is to be announced of a kenneling, and where.
#[derive(Debug)]
pub struct Notices {
    /// The message for the channel in which the command was given.
    pub announcement: Option<String>,
    /// The kennel channel and the message for it.
    pub kennel: Option<(ChannelId, String)>,
}

/// `template` filled in for `draft`: the length as `humantime` writes it,
/// the time of release as a distance from the present.
pub open spec fn notice_text(template: Seq<char>, draft: NewKenneling) -> Seq<char> {
    formatted_message(
        template,
        draft.victim_id,
        draft.author_id,
        formatted_duration(draft.kennel_length, 0),
        relative_mark((draft.kenneled_at + draft.kennel_length) as nat),
    )
}

/// Whether `notices` are those of `draft` in a guild with these settings:
/// an announcement where the guild has set a message for it, and a message
/// for the kennel channel where the guild has set both.
pub open spec fn notices_for(
    notices: Notices,
    msg_announce: Option<Seq<char>>,
    kennel_channel: Option<ChannelId>,
    kennel_msg: Option<Seq<char>>,
    draft: NewKenneling,
) -> bool {
    &&& match msg_announce {
        Some(template) => notices.announcement matches Some(text) && text@ == notice_text(
            template,
            draft,
        ),
        None => notices.announcement is None,
    }
    &&& match (kennel_channel, kennel_msg) {
        (Some(channel), Some(template)) => notices.kennel matches Some((to, text)) && to
            == channel && text@ == notice_text(template, draft),
        _ => notices.kennel is None,
    }
}

/// Fills in `template` for `draft`.
pub fn notice(template: &str, draft: &NewKenneling) -> (text: String)
    ensures
        text@ == notice_text(template@, *draft),
{
    let time = format_duration_text(Span::from_secs(draft.kennel_length));
    let due: u128 = draft.kenneled_at as u128 + draft.kennel_length as u128;
    let return_time = relative_timestamp(due);
    get_formatted_message(
        template,
        &draft.victim_id,
        &draft.author_id,
        time.as_str(),
        return_time.as_str(),
    )
}

/// Writes the messages that announce `draft`.
pub fn notices(
    msg_announce: Option<&String>,
    kennel_channel: Option<ChannelId>,
    kennel_msg: Option<&String>,
    draft: &NewKenneling,
) -> (notices: Notices)
    ensures
        notices_for(
            notices,
            match msg_announce {
                Some(template) => Some(template@),
                None => None,
            },
            kennel_channel,
            match kennel_msg {
                Some(template) => Some(template@),
                None => None,
            },
            *draft,
        ),
{
    let announcement = match msg_announce {
        Some(template) => Some(notice(template.as_str(), draft)),
        None => None,
    };
    let kennel = match (kennel_channel, kennel_msg) {
        (Some(channel), Some(template)) => Some((channel, notice(template.as_str(), draft))),
        _ => None,
    };
    Notices { announcement, kennel }
}

} // verus!
