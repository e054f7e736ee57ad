//! Random wallpaper mode: the theme drawn for the day, and its persisted record.

use vstd::prelude::*;

use crate::date::{iso_date, Date};
use crate::month::month_number;
use crate::random_selector::{filter_themes_by_pool, in_pool, pool_filter, DailyRandomThemeSelector};

verus! {

/// The theme drawn for a local date, as kept for the settings interface.
#[derive(Debug)]
pub struct RandomSelection {
    /// The local date the theme was drawn for, `YYYY-MM-DD`.
    pub date: String,
    pub theme_id: String,
}

impl RandomSelection {
    /// The record of `theme_id` drawn on `date`.
    pub fn new(date: &Date, theme_id: String) -> (selection: RandomSelection)
        ensures
            selection.date@ == iso_date(date.y(), month_number(date.m()) as int, date.d()),
            selection.theme_id@ == theme_id@,
    {
        RandomSelection { date: date.format_iso(), theme_id }
    }
}

/// The daemon's random-mode state: the selector and the theme drawn last.
pub struct RandomModeState {
    selector: DailyRandomThemeSelector,
    current_theme: Option<String>,
}

impl RandomModeState {
    /// The selector.
    pub closed spec fn selector(&self) -> DailyRandomThemeSelector {
        self.selector
    }

    /// The theme drawn last.
    pub closed spec fn current(&self) -> Option<String> {
        self.current_theme
    }
}

/// The themes a draw chooses from: the available themes, kept to the pool if there is
/// one.
pub open spec fn candidates(available: Seq<String>, pool: Option<Seq<String>>) -> Seq<String> {
    match pool {
        None => available,
        Some(p) => pool_filter(available, p),
    }
}

/// Whether a draw is due on `today`: there is no state yet, or none was made today.
pub open spec fn draw_due(state: Option<RandomModeState>, today: Date) -> bool {
    match state {
        None => true,
        Some(s) => match s.selector().last_date() {
            None => true,
            Some(date) => date != today,
        },
    }
}

/// Once a theme was drawn on `today`, no other draw is due that day: the day keeps its
/// theme.
pub proof fn lemma_one_draw_per_day(state: RandomModeState, today: Date)
    requires
        state.selector().last_date() == Some(today),
    ensures
        !draw_due(Some(state), today),
{
}

/// The round order and the number of its themes used, of the selector a draw starts
/// from: the state's, or a fresh one.
pub open spec fn starting_selector(state: Option<RandomModeState>) -> (Seq<String>, int) {
    match state {
        None => (Seq::empty(), 0),
        Some(s) => (s.selector().order(), s.selector().used()),
    }
}

/// The theme of the day in random mode.
///
/// A draw is made when none was made today and some candidate exists: the selector
/// hands out the next theme of its round (shuffling a new round from the candidates
/// when the round is used up) and records today. The theme drawn last is returned.
pub fn todays_random_theme(
    state: &mut Option<RandomModeState>,
    today: &Date,
    available: &[String],
    pool: Option<&Vec<String>>,
) -> (theme: Option<String>)
    ensures
        theme == (match *final(state) {
            Some(s) => s.current(),
            None => None,
        }),
        !(draw_due(*old(state), *today) && candidates(
            available@,
            match pool {
                Some(p) => Some(p@),
                None => None,
            },
        ).len() > 0) ==> *final(state) == *old(state),
        ({
            let cands = candidates(
                available@,
                match pool {
                    Some(p) => Some(p@),
                    None => None,
                },
            );
            let (order, used) = starting_selector(*old(state));
            let goes_on = used < order.len() && in_pool(cands, order[used]);
            draw_due(*old(state), *today) && cands.len() > 0 ==> (*final(state) matches Some(s) && {
                &&& s.selector().last_date() == Some(*today)
                &&& s.current() matches Some(t) && in_pool(cands, t)
                &&& goes_on ==> s.current() == Some(order[used])
                &&& !goes_on ==> (s.selector().round() == cands && s.current() == Some(
                    s.selector().order()[0],
                ) && s.selector().used() == 1)
            })
        }),
{
    let due = match state {
        Some(s) => s.selector.needs_switch(today),
        None => true,
    };
    if due && available.len() > 0 {
        let themes = filter_themes_by_pool(available, pool);
        if themes.len() > 0 {
            let mut s = match state.take() {
                Some(s) => s,
                None => RandomModeState {
                    selector: DailyRandomThemeSelector::new(),
                    current_theme: None,
                },
            };
            if let Some(theme_id) = s.selector.select_next(themes.as_slice()) {
                s.selector.mark_applied(today);
                s.current_theme = Some(theme_id);
            }
            *state = Some(s);
        }
    }
    match state {
        Some(s) => match &s.current_theme {
            Some(t) => Some(t.clone()),
            None => None,
        },
        None => None,
    }
}

} // verus!
