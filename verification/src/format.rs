//! The channel name that shows what a poll found.

use crate::decimal::{
    decimal, decimal_digits, is_digit, is_number, law_decimal_is_number,
    law_decimal_of_u32_is_short,
};
use crate::outcome::{PollOutcome, PollOutcomeView};
use crate::text::{replace_all, replaced};
use vstd::prelude::*;

verus! {

/// The two texts from which channel names are made.
#[derive(Debug, Clone, PartialEq, Eq)]
pub struct Templates {
    /// Shown while the server is reachable; `$ONLINE` and `$MAX` in it stand
    /// for the two player counts.
    pub online: String,
    /// Shown as it is while the server is not reachable.
    pub offline: String,
}

/// `Templates` with their texts as sequences of characters.
pub struct TemplatesView {
    pub online: Seq<char>,
    pub offline: Seq<char>,
}

impl View for Templates {
    type V = TemplatesView;

    open spec fn view(&self) -> TemplatesView {
        TemplatesView { online: self.online@, offline: self.offline@ }
    }
}

/// The placeholder for the number of players connected: `$ONLINE`.
pub open spec fn online_token() -> Seq<char> {
    seq!['$', 'O', 'N', 'L', 'I', 'N', 'E']
}

/// The placeholder for the number of players admitted: `$MAX`.
pub open spec fn max_token() -> Seq<char> {
    seq!['$', 'M', 'A', 'X']
}

/// `template` read once from left to right, with `online` in place of each
/// `$ONLINE` and `max` in place of each `$MAX`; every other character stays
/// where it is.
pub open spec fn substituted(template: Seq<char>, online: Seq<char>, max: Seq<char>) -> Seq<char>
    decreases template.len(),
{
    if template.len() == 0 {
        template
    } else if online_token().is_prefix_of(template) {
        online + substituted(template.skip(online_token().len() as int), online, max)
    } else if max_token().is_prefix_of(template) {
        max + substituted(template.skip(max_token().len() as int), online, max)
    } else {
        seq![template[0]] + substituted(template.skip(1), online, max)
    }
}

/// The name made from `template` for a reachable server: both counts in
/// decimal notation in place of their placeholders.
pub open spec fn rendered(template: Seq<char>, online: nat, max: nat) -> Seq<char> {
    substituted(template, decimal_digits(online), decimal_digits(max))
}

/// The name made from `template` in two passes: first every `$ONLINE` is
/// replaced, then every `$MAX` in what came of that.
pub open spec fn rendered_in_turn(template: Seq<char>, online: nat, max: nat) -> Seq<char> {
    replaced(
        replaced(template, online_token(), decimal_digits(online)),
        max_token(),
        decimal_digits(max),
    )
}

/// The channel name for `outcome`: the online template with the counts put
/// in where the server is reachable, else the offline text as it is,
/// whatever the reason.
pub open spec fn shown(outcome: PollOutcomeView, templates: TemplatesView) -> Seq<char> {
    match outcome {
        PollOutcomeView::Reachable { online, max } => rendered(
            templates.online,
            online as nat,
            max as nat,
        ),
        PollOutcomeView::Unreachable { .. } => templates.offline,
    }
}

/// Whether `text` is free of `$`, the sign that every placeholder begins
/// with.
pub open spec fn is_plain(text: Seq<char>) -> bool {
    forall|i: int| 0 <= i < text.len() ==> text[i] != '$'
}

/// Makes the name for a reachable server from `template`. Any two counts
/// are taken, also more players connected than admitted.
pub fn render_online(template: &str, online: u32, max: u32) -> (name: String)
    ensures
        name@ == rendered(template@, online as nat, max as nat),
{
    let online_text = decimal(online);
    let max_text = decimal(max);
    proof {
        reveal_strlit("$ONLINE");
        reveal_strlit("$MAX");
        assert("$ONLINE"@ =~= online_token());
        assert("$MAX"@ =~= max_token());
        law_passes_agree(template@, online as nat, max as nat);
    }
    let with_online = replace_all(template, "$ONLINE", online_text.as_str());
    replace_all(with_online.as_str(), "$MAX", max_text.as_str())
}

/// Makes the channel name that shows `outcome`.
pub fn display_name(outcome: &PollOutcome, templates: &Templates) -> (name: String)
    ensures
        name@ == shown(outcome@, templates@),
        outcome is Unreachable ==> name@ == templates.offline@,
{
    match outcome {
        PollOutcome::Reachable { online, max } => render_online(
            templates.online.as_str(),
            *online,
            *max,
        ),
        PollOutcome::Unreachable { .. } => templates.offline.clone(),
    }
}

/// A text without `$` passes the search for `$MAX` as it is.
proof fn lemma_value_passes(value: Seq<char>, rest: Seq<char>, max: Seq<char>)
    requires
        forall|i: int| 0 <= i < value.len() ==> value[i] != '$',
    ensures
        replaced(value + rest, max_token(), max) == value + replaced(rest, max_token(), max),
    decreases value.len(),
{
    if value.len() == 0 {
        assert(value + rest =~= rest);
        assert(value + replaced(rest, max_token(), max) =~= replaced(rest, max_token(), max));
    } else {
        let whole = value + rest;
        assert(whole[0] == value[0]);
        assert(!max_token().is_prefix_of(whole)) by {
            if max_token().is_prefix_of(whole) {
                assert(whole.subrange(0, max_token().len() as int)[0] == max_token()[0]);
            }
        }
        assert(whole.skip(1) =~= value.skip(1) + rest);
        lemma_value_passes(value.skip(1), rest, max);
        assert(seq![value[0]] + (value.skip(1) + replaced(rest, max_token(), max)) =~= value
            + replaced(rest, max_token(), max));
    }
}

/// Where the search for `$ONLINE` puts out a first character that the value
/// does not begin with, that character stood first in the template, and no
/// placeholder began there.
proof fn lemma_first_stays(template: Seq<char>, online: Seq<char>)
    requires
        online.len() > 0,
        replaced(template, online_token(), online).len() > 0,
        replaced(template, online_token(), online)[0] != online[0],
    ensures
        template.len() > 0,
        !online_token().is_prefix_of(template),
        replaced(template, online_token(), online) == seq![template[0]] + replaced(
            template.skip(1),
            online_token(),
            online,
        ),
{
}

/// A template that does not begin with `$ONLINE` keeps its first character
/// in the search for it.
proof fn lemma_first_copied(template: Seq<char>, online: Seq<char>, first: char)
    requires
        template.len() > 0,
        template[0] == first,
        first != '$',
    ensures
        replaced(template, online_token(), online) == seq![first] + replaced(
            template.skip(1),
            online_token(),
            online,
        ),
{
    if online_token().is_prefix_of(template) {
        assert(template.subrange(0, online_token().len() as int)[0] == online_token()[0]);
    }
}

/// Replacing every `$ONLINE` and then every `$MAX` gives what one reading
/// gives that replaces both, where the value put in for `$ONLINE` is a
/// number.
proof fn lemma_passes_agree(template: Seq<char>, online: Seq<char>, max: Seq<char>)
    requires
        is_number(online),
    ensures
        replaced(replaced(template, online_token(), online), max_token(), max) == substituted(
            template,
            online,
            max,
        ),
    decreases template.len(),
{
    let first_pass = replaced(template, online_token(), online);
    if template.len() == 0 {
    } else if online_token().is_prefix_of(template) {
        let rest = template.skip(online_token().len() as int);
        assert forall|i: int| 0 <= i < online.len() implies online[i] != '$' by {
            assert(is_digit(online[i]));
        }
        lemma_value_passes(online, replaced(rest, online_token(), online), max);
        lemma_passes_agree(rest, online, max);
    } else if max_token().is_prefix_of(template) {
        let rest = template.skip(max_token().len() as int);
        let head = template.subrange(0, max_token().len() as int);
        assert(head[0] == '$' && head[1] == 'M' && head[2] == 'A' && head[3] == 'X');
        let after_1 = template.skip(1);
        let after_2 = after_1.skip(1);
        let after_3 = after_2.skip(1);
        assert(after_3.skip(1) =~= rest);
        lemma_first_copied(after_1, online, 'M');
        lemma_first_copied(after_2, online, 'A');
        lemma_first_copied(after_3, online, 'X');
        let tail = replaced(rest, online_token(), online);
        assert(first_pass =~= max_token() + tail);
        assert(max_token().is_prefix_of(max_token() + tail));
        assert((max_token() + tail).skip(max_token().len() as int) =~= tail);
        lemma_passes_agree(rest, online, max);
    } else {
        let rest = template.skip(1);
        let tail = replaced(rest, online_token(), online);
        assert(first_pass == seq![template[0]] + tail);
        assert(!max_token().is_prefix_of(first_pass)) by {
            if max_token().is_prefix_of(first_pass) {
                let head = first_pass.subrange(0, max_token().len() as int);
                assert(head[0] == '$' && head[1] == 'M' && head[2] == 'A' && head[3] == 'X');
                assert(first_pass[0] == template[0]);
                assert(tail[0] == first_pass[1] && tail[1] == first_pass[2] && tail[2]
                    == first_pass[3]);
                assert(is_digit(online[0]));
                lemma_first_stays(rest, online);
                let tail_1 = replaced(rest.skip(1), online_token(), online);
                assert(tail_1[0] == tail[1] && tail_1[1] == tail[2]);
                lemma_first_stays(rest.skip(1), online);
                let tail_2 = replaced(rest.skip(1).skip(1), online_token(), online);
                assert(tail_2[0] == tail_1[1]);
                lemma_first_stays(rest.skip(1).skip(1), online);
                assert(template.subrange(0, max_token().len() as int) =~= max_token());
            }
        }
        assert(first_pass.skip(1) =~= tail);
        lemma_passes_agree(rest, online, max);
    }
}

/// The two passes in which a name is made, first for `$ONLINE` and then for
/// `$MAX`, give the name that one reading of the template gives: no count
/// that was put in is read as a placeholder, or as part of one.
pub proof fn law_passes_agree(template: Seq<char>, online: nat, max: nat)
    ensures
        rendered_in_turn(template, online, max) == rendered(template, online, max),
{
    law_decimal_is_number(online);
    lemma_passes_agree(template, decimal_digits(online), decimal_digits(max));
}

/// Text without `$` is kept as it is, where it stands.
pub proof fn law_text_is_kept(text: Seq<char>, rest: Seq<char>, online: Seq<char>, max: Seq<char>)
    requires
        is_plain(text),
    ensures
        substituted(text + rest, online, max) == text + substituted(rest, online, max),
    decreases text.len(),
{
    if text.len() == 0 {
        assert(text + rest =~= rest);
        assert(text + substituted(rest, online, max) =~= substituted(rest, online, max));
    } else {
        let whole = text + rest;
        assert(whole[0] == text[0]);
        assert(!online_token().is_prefix_of(whole)) by {
            if online_token().is_prefix_of(whole) {
                assert(whole.subrange(0, online_token().len() as int)[0] == online_token()[0]);
            }
        }
        assert(!max_token().is_prefix_of(whole)) by {
            if max_token().is_prefix_of(whole) {
                assert(whole.subrange(0, max_token().len() as int)[0] == max_token()[0]);
            }
        }
        assert(whole.skip(1) =~= text.skip(1) + rest);
        law_text_is_kept(text.skip(1), rest, online, max);
        assert(seq![text[0]] + (text.skip(1) + substituted(rest, online, max)) =~= text
            + substituted(rest, online, max));
    }
}

/// Where `$ONLINE` stands, the value for it is put in.
pub proof fn law_online_is_put_in(rest: Seq<char>, online: Seq<char>, max: Seq<char>)
    ensures
        substituted(online_token() + rest, online, max) == online + substituted(
            rest,
            online,
            max,
        ),
{
    let whole = online_token() + rest;
    assert(online_token().is_prefix_of(whole));
    assert(whole.skip(online_token().len() as int) =~= rest);
}

/// Where `$MAX` stands, the value for it is put in.
pub proof fn law_max_is_put_in(rest: Seq<char>, online: Seq<char>, max: Seq<char>)
    ensures
        substituted(max_token() + rest, online, max) == max + substituted(rest, online, max),
{
    let whole = max_token() + rest;
    assert(max_token().is_prefix_of(whole));
    assert(!online_token().is_prefix_of(whole)) by {
        if online_token().is_prefix_of(whole) {
            assert(whole.subrange(0, online_token().len() as int)[1] == online_token()[1]);
            assert(whole[1] == max_token()[1]);
        }
    }
    assert(whole.skip(max_token().len() as int) =~= rest);
}

/// A template without placeholders is the name, whatever the counts are.
pub proof fn law_plain_template_is_kept(template: Seq<char>, online: nat, max: nat)
    requires
        is_plain(template),
    ensures
        rendered(template, online, max) == template,
{
    let nothing = Seq::<char>::empty();
    law_text_is_kept(template, nothing, decimal_digits(online), decimal_digits(max));
    assert(template + nothing =~= template);
}

/// Five texts put together from the left are the same put together from
/// the right.
proof fn lemma_regrouped(a: Seq<char>, b: Seq<char>, c: Seq<char>, d: Seq<char>, e: Seq<char>)
    ensures
        a + b + c + d + e == a + (b + (c + (d + e))),
{
    assert(a + b + c + d + e =~= a + (b + (c + (d + e))));
}

/// Both counts are put in as they are written in decimal notation, each in
/// the place of its placeholder, and the text around them stays as it is;
/// also where more players are connected than are admitted.
pub proof fn law_counts_take_their_places(
    before: Seq<char>,
    between: Seq<char>,
    after: Seq<char>,
    online: nat,
    max: nat,
)
    requires
        is_plain(before),
        is_plain(between),
        is_plain(after),
    ensures
        rendered(before + online_token() + between + max_token() + after, online, max) == before
            + decimal_digits(online) + between + decimal_digits(max) + after,
{
    let first = decimal_digits(online);
    let second = decimal_digits(max);
    law_plain_template_is_kept(after, online, max);
    law_max_is_put_in(after, first, second);
    law_text_is_kept(between, max_token() + after, first, second);
    law_online_is_put_in(between + (max_token() + after), first, second);
    law_text_is_kept(before, online_token() + (between + (max_token() + after)), first, second);
    lemma_regrouped(before, online_token(), between, max_token(), after);
    lemma_regrouped(before, first, between, second, after);
}

/// Values of ten characters at most make a text of at most five halves of
/// the template's length.
proof fn lemma_substituted_is_bounded(template: Seq<char>, online: Seq<char>, max: Seq<char>)
    requires
        online.len() <= 10,
        max.len() <= 10,
    ensures
        2 * substituted(template, online, max).len() <= 5 * template.len(),
    decreases template.len(),
{
    if template.len() == 0 {
    } else if online_token().is_prefix_of(template) {
        lemma_substituted_is_bounded(template.skip(online_token().len() as int), online, max);
    } else if max_token().is_prefix_of(template) {
        lemma_substituted_is_bounded(template.skip(max_token().len() as int), online, max);
    } else {
        lemma_substituted_is_bounded(template.skip(1), online, max);
    }
}

/// A name is bounded by its template: it is at most five halves as long,
/// which it is where the template is made of `$MAX` alone and the count has
/// ten digits.
pub proof fn law_name_is_bounded(template: Seq<char>, online: u32, max: u32)
    ensures
        2 * rendered(template, online as nat, max as nat).len() <= 5 * template.len(),
{
    law_decimal_of_u32_is_short(online);
    law_decimal_of_u32_is_short(max);
    lemma_substituted_is_bounded(
        template,
        decimal_digits(online as nat),
        decimal_digits(max as nat),
    );
}

/// Whatever a poll found, the name that shows it is bounded by the two
/// texts it can be made from.
pub proof fn law_shown_name_is_bounded(outcome: PollOutcomeView, templates: TemplatesView)
    ensures
        2 * shown(outcome, templates).len() <= 5 * templates.online.len() + 2
            * templates.offline.len(),
{
    match outcome {
        PollOutcomeView::Reachable { online, max } => {
            law_name_is_bounded(templates.online, online, max);
        },
        PollOutcomeView::Unreachable { .. } => {},
    }
}

} // verus!
