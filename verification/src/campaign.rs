//! What the narrator's first answer says about the campaign.
//!
//! The answer is free text. It is read line by line: a line that mentions a
//! key word and holds a colon gives the value that stands after its first
//! colon, and a later line overrides an earlier one. Whatever is still empty
//! at the end gets a fixed value. This is a reading aid, not a grammar: the
//! narrator is free to answer in a way that yields nothing but the fixed
//! values.

use vstd::prelude::*;
use vstd::string::*;
use crate::text::{
    chars_of, contains_chars, lowercase, lowercase_of, occurs_in, split_chars, split_on, string_of,
    texts_of, trim_chars, trimmed,
};

verus! {

/// The name of a campaign whose name the answer does not give.
pub const DEFAULT_CAMPAIGN: &'static str = "Mystical Adventure";

/// The place where a campaign starts whose place the answer does not give.
pub const DEFAULT_LOCATION: &'static str = "Starting Town";

/// The quest of a campaign whose quest the answer does not give.
pub const DEFAULT_QUEST: &'static str = "Find adventure";

/// The name of the campaign, the place where it starts, and the first quest.
#[derive(Debug)]
pub struct CampaignDetails {
    pub campaign: String,
    pub location: String,
    pub quest: String,
}

/// What the details of a campaign say, with texts in place of strings.
pub struct DetailsModel {
    pub campaign: Seq<char>,
    pub location: Seq<char>,
    pub quest: Seq<char>,
}

impl View for CampaignDetails {
    type V = DetailsModel;

    open spec fn view(&self) -> DetailsModel {
        DetailsModel { campaign: self.campaign@, location: self.location@, quest: self.quest@ }
    }
}

/// The value that a line gives: what stands between its first and its second
/// colon, without the white space around it. A line without a colon gives
/// none.
pub open spec fn labelled_value(line: Seq<char>) -> Option<Seq<char>> {
    let parts = split_on(line, ':');
    if parts.len() >= 2 {
        Some(trimmed(parts[1]))
    } else {
        None
    }
}

/// What is known after a line has been read, where `lowered` is the line in
/// lowercase. A line that gives a value sets each detail whose key word it
/// mentions; every other line changes nothing.
pub open spec fn read_lowered_line(found: DetailsModel, line: Seq<char>, lowered: Seq<char>) -> DetailsModel {
    match labelled_value(line) {
        None => found,
        Some(value) => DetailsModel {
            campaign: if occurs_in(lowered, "campaign"@) || occurs_in(lowered, "adventure"@) {
                value
            } else {
                found.campaign
            },
            location: if occurs_in(lowered, "location"@) {
                value
            } else {
                found.location
            },
            quest: if occurs_in(lowered, "quest"@) || occurs_in(lowered, "hook"@) {
                value
            } else {
                found.quest
            },
        },
    }
}

/// What is known after a line has been read.
pub open spec fn read_line(found: DetailsModel, line: Seq<char>) -> DetailsModel {
    read_lowered_line(found, line, lowercase_of(line))
}

/// What is known after all of `lines` have been read, in order.
pub open spec fn read_lines(lines: Seq<Seq<char>>) -> DetailsModel
    decreases lines.len(),
{
    if lines.len() == 0 {
        DetailsModel { campaign: Seq::empty(), location: Seq::empty(), quest: Seq::empty() }
    } else {
        read_line(read_lines(lines.drop_last()), lines.last())
    }
}

/// `value`, or `fallback` where `value` is empty.
pub open spec fn or_fallback(value: Seq<char>, fallback: Seq<char>) -> Seq<char> {
    if value.len() == 0 {
        fallback
    } else {
        value
    }
}

/// The details that the answer `response` gives: what its lines say, split at
/// line feeds, with the fixed values in the places that stayed empty.
pub open spec fn campaign_details(response: Seq<char>) -> DetailsModel {
    let found = read_lines(split_on(response, '\n'));
    DetailsModel {
        campaign: or_fallback(found.campaign, DEFAULT_CAMPAIGN@),
        location: or_fallback(found.location, DEFAULT_LOCATION@),
        quest: or_fallback(found.quest, DEFAULT_QUEST@),
    }
}

/// The details found so far, as characters.
#[derive(Debug)]
pub struct FoundDetails {
    pub campaign: Vec<char>,
    pub location: Vec<char>,
    pub quest: Vec<char>,
}

impl View for FoundDetails {
    type V = DetailsModel;

    open spec fn view(&self) -> DetailsModel {
        DetailsModel { campaign: self.campaign@, location: self.location@, quest: self.quest@ }
    }
}

fn copy_of(chars: &Vec<char>) -> (copy: Vec<char>)
    ensures
        copy@ == chars@,
{
    let mut copy: Vec<char> = Vec::new();
    let mut at: usize = 0;
    while at < chars.len()
        invariant
            at <= chars@.len(),
            copy@ == chars@.take(at as int),
        decreases chars@.len() - at,
    {
        copy.push(chars[at]);
        at = at + 1;
    }
    copy
}

/// Reads one line, given the line in lowercase, and notes what it says.
pub fn note_line(found: &mut FoundDetails, line: &Vec<char>, lowered: &Vec<char>)
    ensures
        final(found)@ == read_lowered_line(old(found)@, line@, lowered@),
{
    let parts: Vec<Vec<char>> = split_chars(line, ':');
    if parts.len() >= 2 {
        let value: Vec<char> = trim_chars(&parts[1]);
        let campaign_word: Vec<char> = chars_of("campaign");
        let adventure_word: Vec<char> = chars_of("adventure");
        let location_word: Vec<char> = chars_of("location");
        let quest_word: Vec<char> = chars_of("quest");
        let hook_word: Vec<char> = chars_of("hook");
        if contains_chars(lowered, &campaign_word) || contains_chars(lowered, &adventure_word) {
            found.campaign = copy_of(&value);
        }
        if contains_chars(lowered, &location_word) {
            found.location = copy_of(&value);
        }
        if contains_chars(lowered, &quest_word) || contains_chars(lowered, &hook_word) {
            found.quest = value;
        }
    }
}

fn text_or(value: &Vec<char>, fallback: &str) -> (text: String)
    ensures
        text@ == or_fallback(value@, fallback@),
{
    if value.len() == 0 {
        String::from_str(fallback)
    } else {
        string_of(value)
    }
}

/// Reads the details of the campaign out of the narrator's answer.
pub fn extract_details(response: &str) -> (details: CampaignDetails)
    ensures
        details@ == campaign_details(response@),
{
    let chars: Vec<char> = chars_of(response);
    let lines: Vec<Vec<char>> = split_chars(&chars, '\n');
    let mut found: FoundDetails = FoundDetails { campaign: Vec::new(), location: Vec::new(), quest: Vec::new() };
    let mut read: usize = 0;
    let ghost all_lines = texts_of(lines@);
    while read < lines.len()
        invariant
            read <= lines@.len(),
            all_lines == texts_of(lines@),
            found@ == read_lines(all_lines.take(read as int)),
        decreases lines@.len() - read,
    {
        let line: &Vec<char> = &lines[read];
        let line_text: String = string_of(line);
        let lowered_text: String = lowercase(line_text.as_str());
        let lowered: Vec<char> = chars_of(lowered_text.as_str());
        note_line(&mut found, line, &lowered);
        proof {
            let longer = all_lines.take(read + 1);
            assert(longer.drop_last() =~= all_lines.take(read as int));
        }
        read = read + 1;
    }
    assert(all_lines.take(read as int) =~= all_lines);
    CampaignDetails {
        campaign: text_or(&found.campaign, DEFAULT_CAMPAIGN),
        location: text_or(&found.location, DEFAULT_LOCATION),
        quest: text_or(&found.quest, DEFAULT_QUEST),
    }
}

} // verus!
