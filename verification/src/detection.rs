//! What the window is told about the detected game, and the trail of osu! window titles.

use crate::game_identity::OSU_ID;
use crate::settings::{DetectedGame, GameRecordingMode};
use crate::text::{
    concat3, decimal, decimal_string, opt_view, signed_decimal, signed_decimal_string,
    str_eq, trim, trimmed,
};
use vstd::prelude::*;

verus! {

/// How many titles the trail holds.
pub const MAX_OSU_TITLE_EVENTS: usize = 512;

/// What the window is told about the detected game.
#[derive(Debug, PartialEq, Eq)]
pub struct GameDetectionEvent {
    pub active: bool,
    pub name: Option<String>,
    pub window_title: Option<String>,
    pub process_id: Option<u32>,
    pub process_instance_id: Option<String>,
    pub exe_name: Option<String>,
    pub recording_mode: Option<GameRecordingMode>,
    pub elevated_hotkeys_blocked: bool,
}

/// What the system said of the processes: whether this one is elevated, whether the game
/// is, and which instance the game's process is.
#[derive(Debug, PartialEq, Eq)]
pub struct ProcessQueries {
    pub clipline_elevated: Result<bool, String>,
    pub game_is_elevated: Result<bool, String>,
    pub process_instance_id: Result<String, String>,
}

/// Hotkeys do not reach this process while an elevated game has the focus, unless it is
/// elevated too. A game that could not be asked counts as elevated; where this process
/// could not be asked, nothing is claimed.
pub open spec fn hotkeys_blocked(queries: ProcessQueries) -> bool {
    queries.clipline_elevated == Ok::<bool, String>(false) && match queries.game_is_elevated {
        Ok(elevated) => elevated,
        Err(_) => true,
    }
}

/// The instance of a process, or its number with its window where that is unknown.
pub open spec fn instance_name(game: DetectedGame, queries: ProcessQueries) -> Seq<char> {
    match queries.process_instance_id {
        Ok(id) => id@,
        Err(_) => decimal(game.process_id as nat) + ":window:"@ + signed_decimal(game.hwnd as int),
    }
}

/// The event that stands for a detection.
pub open spec fn is_detection_event(
    event: GameDetectionEvent,
    detected: Option<DetectedGame>,
    queries: ProcessQueries,
) -> bool {
    match detected {
        Some(game) => {
            &&& event.active
            &&& opt_view(event.name) == Some(game.name@)
            &&& opt_view(event.window_title) == Some(game.window_title@)
            &&& event.process_id == Some(game.process_id)
            &&& opt_view(event.exe_name) == Some(game.exe_name@)
            &&& event.recording_mode == Some(game.recording_mode)
            &&& event.elevated_hotkeys_blocked == hotkeys_blocked(queries)
            &&& opt_view(event.process_instance_id) == if hotkeys_blocked(queries) {
                Some(instance_name(game, queries))
            } else {
                None
            }
        },
        None => event == (GameDetectionEvent {
            active: false,
            name: None,
            window_title: None,
            process_id: None,
            process_instance_id: None,
            exe_name: None,
            recording_mode: None,
            elevated_hotkeys_blocked: false,
        }),
    }
}

impl GameDetectionEvent {
    pub fn from_detected_with_process_queries(
        detected: &Option<DetectedGame>,
        queries: &ProcessQueries,
    ) -> (event: Self)
        ensures
            is_detection_event(event, *detected, *queries),
    {
        match detected {
            Some(game) => {
                let lower_privilege = match &queries.clipline_elevated {
                    Ok(elevated) => !*elevated,
                    Err(_) => false,
                };
                let game_elevated = match &queries.game_is_elevated {
                    Ok(elevated) => *elevated,
                    Err(_) => true,
                };
                let blocked = lower_privilege && game_elevated;
                let process_instance_id = if blocked {
                    let id = match &queries.process_instance_id {
                        Ok(id) => id.clone(),
                        Err(_) => {
                            let pid = decimal_string(game.process_id as u64);
                            let hwnd = signed_decimal_string(game.hwnd);
                            concat3(pid.as_str(), ":window:", hwnd.as_str())
                        },
                    };
                    Some(id)
                } else {
                    None
                };
                GameDetectionEvent {
                    active: true,
                    name: Some(game.name.clone()),
                    window_title: Some(game.window_title.clone()),
                    process_id: Some(game.process_id),
                    process_instance_id,
                    exe_name: Some(game.exe_name.clone()),
                    recording_mode: Some(game.recording_mode),
                    elevated_hotkeys_blocked: blocked,
                }
            },
            None => GameDetectionEvent {
                active: false,
                name: None,
                window_title: None,
                process_id: None,
                process_instance_id: None,
                exe_name: None,
                recording_mode: None,
                elevated_hotkeys_blocked: false,
            },
        }
    }
}

/// A title that the osu! window had, and when it was first seen.
#[derive(Debug, PartialEq, Eq)]
pub struct OsuTitleEvent {
    pub unix_s: i64,
    pub title: String,
}

impl Clone for OsuTitleEvent {
    fn clone(&self) -> (r: Self)
        ensures
            r == *self,
    {
        OsuTitleEvent { unix_s: self.unix_s, title: self.title.clone() }
    }
}

pub ghost struct TitleView {
    pub unix_s: i64,
    pub title: Seq<char>,
}

impl View for OsuTitleEvent {
    type V = TitleView;

    open spec fn view(&self) -> TitleView {
        TitleView { unix_s: self.unix_s, title: self.title@ }
    }
}

/// The trail, by what its entries say.
pub open spec fn title_views(events: Seq<OsuTitleEvent>) -> Seq<TitleView> {
    events.map_values(|event: OsuTitleEvent| event@)
}

/// The title that a detection adds to the trail: that of the osu! plugin, unless it is
/// blank or the one that came last.
pub open spec fn title_to_record(
    events: Seq<TitleView>,
    detected: Option<DetectedGame>,
) -> Option<Seq<char>> {
    match detected {
        Some(game) => {
            let title = trimmed(game.window_title@);
            if game.identity is BuiltInPlugin && game.identity->BuiltInPlugin_0@ == OSU_ID@
                && title.len() > 0 && !(events.len() > 0 && events.last().title == title) {
                Some(title)
            } else {
                None
            }
        },
        None => None,
    }
}

/// The latest entries of a trail.
pub open spec fn latest(events: Seq<TitleView>) -> Seq<TitleView> {
    if events.len() > MAX_OSU_TITLE_EVENTS {
        events.skip(events.len() - MAX_OSU_TITLE_EVENTS)
    } else {
        events
    }
}

/// The trail after a detection.
pub open spec fn trail_after(
    events: Seq<TitleView>,
    detected: Option<DetectedGame>,
    unix_s: i64,
) -> Seq<TitleView> {
    match title_to_record(events, detected) {
        Some(title) => latest(events.push(TitleView { unix_s, title })),
        None => events,
    }
}

/// Keeps the latest entries.
fn drop_oldest(events: &mut Vec<OsuTitleEvent>)
    ensures
        title_views(final(events)@) == latest(title_views(old(events)@)),
        title_views(old(events)@).len() <= MAX_OSU_TITLE_EVENTS ==> *final(events) == *old(events),
{
    let count: usize = events.len();
    if count > MAX_OSU_TITLE_EVENTS {
        let overflow: usize = count - MAX_OSU_TITLE_EVENTS;
        let mut kept: Vec<OsuTitleEvent> = Vec::new();
        let ghost before = events@;
        let mut i: usize = overflow;
        while i < count
            invariant
                overflow <= i <= count,
                count == events@.len(),
                events@ == before,
                kept@ == before.subrange(overflow as int, i as int),
            decreases count - i,
        {
            kept.push(events[i].clone());
            i += 1;
            assert(before.subrange(overflow as int, i as int) =~= before.subrange(
                overflow as int,
                i - 1,
            ).push(before[i - 1]));
        }
        assert(title_views(kept@) =~= title_views(before).skip(overflow as int));
        *events = kept;
    }
}

/// Records the title of a detected osu! window.
pub fn record_osu_title_event(
    events: &mut Vec<OsuTitleEvent>,
    detected: &Option<DetectedGame>,
    unix_s: i64,
)
    ensures
        title_views(final(events)@) == trail_after(title_views(old(events)@), *detected, unix_s),
{
    let game = match detected {
        Some(game) => game,
        None => return,
    };
    if !game.identity.is_built_in_plugin(OSU_ID) {
        return;
    }
    let title = trim(game.window_title.as_str());
    let title_is_empty = title.as_str().unicode_len() == 0;
    if title_is_empty {
        return;
    }
    let count: usize = events.len();
    if count > 0 {
        let repeated = str_eq(events[count - 1].title.as_str(), title.as_str());
        assert(title_views(events@).last().title == events@[count - 1].title@);
        if repeated {
            return;
        }
    }
    let event = OsuTitleEvent { unix_s, title };
    let ghost before = title_views(events@);
    proof {
        assert(title_views(events@.push(event)) =~= before.push(event@));
    }
    events.push(event);
    drop_oldest(events);
}

/// Whether a moment lies in the window of a recording, with a margin of five seconds on
/// either side.
pub open spec fn in_recording_window(unix_s: i64, start: i64, end: i64) -> bool {
    let first = start - 5;
    let last = if end as int >= first {
        end + 5
    } else {
        first + 5
    };
    first <= unix_s <= last
}

/// The titles that were seen during a recording, in order.
pub fn filter_osu_title_events(
    events: &Vec<OsuTitleEvent>,
    start: i64,
    end: i64,
) -> (kept: Vec<OsuTitleEvent>)
    requires
        start >= i64::MIN + 5,
        end <= i64::MAX - 5,
    ensures
        kept@ == events@.filter(|event: OsuTitleEvent| in_recording_window(event.unix_s, start, end)),
{
    let first: i64 = start - 5;
    let last: i64 = if end >= first {
        end + 5
    } else {
        first + 5
    };
    let ghost inside = |event: OsuTitleEvent| in_recording_window(event.unix_s, start, end);
    let mut kept: Vec<OsuTitleEvent> = Vec::new();
    let mut i: usize = 0;
    while i < events.len()
        invariant
            i <= events@.len(),
            first == start - 5,
            last == (if end >= first {
                end + 5
            } else {
                first + 5
            }),
            inside == (|event: OsuTitleEvent| in_recording_window(event.unix_s, start, end)),
            kept@ == events@.take(i as int).filter(inside),
        decreases events@.len() - i,
    {
        proof {
            reveal(Seq::filter);
            assert(events@.take(i + 1).drop_last() =~= events@.take(i as int));
        }
        if events[i].unix_s >= first && events[i].unix_s <= last {
            kept.push(events[i].clone());
        }
        i += 1;
    }
    assert(events@.take(i as int) =~= events@);
    kept
}

/// The titles of a recording: none where its start is unknown. `end` is the end of the
/// recording, or the present.
pub fn osu_title_events_for_window(
    events: &Vec<OsuTitleEvent>,
    start: Option<i64>,
    end: i64,
) -> (kept: Vec<OsuTitleEvent>)
    requires
        start matches Some(start) ==> start >= i64::MIN + 5,
        end <= i64::MAX - 5,
    ensures
        match start {
            Some(start) => kept@ == events@.filter(
                |event: OsuTitleEvent| in_recording_window(event.unix_s, start, end),
            ),
            None => kept@.len() == 0,
        },
{
    match start {
        Some(start) => filter_osu_title_events(events, start, end),
        None => Vec::new(),
    }
}

/// The trail never grows beyond its bound, and never repeats the title that came last.
pub proof fn law_trail_is_bounded(
    events: Seq<TitleView>,
    detected: Option<DetectedGame>,
    unix_s: i64,
)
    requires
        events.len() <= MAX_OSU_TITLE_EVENTS,
        forall|i: int|
            0 < i < events.len() ==> (#[trigger] events[i]).title != events[i - 1].title,
    ensures
        trail_after(events, detected, unix_s).len() <= MAX_OSU_TITLE_EVENTS,
        forall|i: int|
            0 < i < trail_after(events, detected, unix_s).len() ==> (#[trigger] trail_after(
                events,
                detected,
                unix_s,
            )[i]).title != trail_after(events, detected, unix_s)[i - 1].title,
{
    let after = trail_after(events, detected, unix_s);
    match title_to_record(events, detected) {
        Some(title) => {
            let all = events.push(TitleView { unix_s, title });
            assert forall|i: int| 0 < i < all.len() implies (#[trigger] all[i]).title != all[i
                - 1].title by {
                if i < events.len() {
                    assert(all[i] == events[i]);
                    assert(all[i - 1] == events[i - 1]);
                } else {
                    assert(all[i - 1] == events.last());
                }
            }
            if all.len() > MAX_OSU_TITLE_EVENTS {
                let cut = all.len() - MAX_OSU_TITLE_EVENTS;
                assert forall|i: int| 0 < i < after.len() implies (#[trigger] after[i]).title
                    != after[i - 1].title by {
                    assert(after[i] == all[i + cut]);
                    assert(after[i - 1] == all[i + cut - 1]);
                }
            }
        },
        None => {},
    }
}

/// Hotkeys are reported as blocked exactly where Clipline is known not to be elevated and the game
/// is, or may be.
pub proof fn law_blocked_hotkeys_are_reported(
    event: GameDetectionEvent,
    game: DetectedGame,
    queries: ProcessQueries,
)
    requires
        is_detection_event(event, Some(game), queries),
    ensures
        queries.clipline_elevated is Err ==> !event.elevated_hotkeys_blocked,
        queries.clipline_elevated == Ok::<bool, String>(true) ==> !event.elevated_hotkeys_blocked,
        queries.game_is_elevated == Ok::<bool, String>(false) ==> !event.elevated_hotkeys_blocked,
        queries.clipline_elevated == Ok::<bool, String>(false) && (queries.game_is_elevated is Err
            || queries.game_is_elevated == Ok::<bool, String>(true))
            ==> event.elevated_hotkeys_blocked,
        event.process_instance_id is Some <==> event.elevated_hotkeys_blocked,
        event.process_instance_id is Some && queries.process_instance_id is Ok
            ==> event.process_instance_id->0@ == queries.process_instance_id->Ok_0@,
        event.process_instance_id is Some && queries.process_instance_id is Err
            ==> event.process_instance_id->0@ == decimal(game.process_id as nat) + ":window:"@
            + signed_decimal(game.hwnd as int),
        event.active,
        event.name is Some && event.name->0@ == game.name@,
        event.window_title is Some && event.window_title->0@ == game.window_title@,
        event.process_id == Some(game.process_id),
        event.exe_name is Some && event.exe_name->0@ == game.exe_name@,
        event.recording_mode == Some(game.recording_mode),
{
}

/// A title is recorded exactly where it is that of osu!, is not blank and is not the one that came
/// last; it comes last then, and what was before it stays, but for the oldest beyond the bound.
pub proof fn law_new_osu_titles_are_recorded(
    events: Seq<TitleView>,
    game: DetectedGame,
    unix_s: i64,
)
    requires
        events.len() <= 512,
    ensures
        ({
            let title = trimmed(game.window_title@);
            let after = trail_after(events, Some(game), unix_s);
            let is_new = game.identity is BuiltInPlugin && game.identity->BuiltInPlugin_0@ == "osu"@
                && title.len() > 0 && (events.len() == 0 || events.last().title != title);
            &&& !is_new ==> after == events
            &&& is_new ==> after.len() > 0 && after.last() == (TitleView { unix_s, title })
            &&& is_new && events.len() < 512 ==> after.drop_last() == events
            &&& is_new && events.len() == 512 ==> after.drop_last() == events.skip(1)
        }),
        trail_after(events, None, unix_s) == events,
{
    let title = trimmed(game.window_title@);
    let all = events.push(TitleView { unix_s, title });
    let after = trail_after(events, Some(game), unix_s);
    if title_to_record(events, Some(game)) is Some {
        if events.len() < 512 {
            assert(after.drop_last() =~= events);
        } else {
            assert(after == all.skip(1));
            assert(after.drop_last() =~= events.skip(1));
        }
    }
}

/// A title belongs to a recording exactly where it was seen between five seconds before its start
/// and five seconds after its end.
pub proof fn law_titles_of_a_recording(unix_s: i64, start: i64, end: i64)
    requires
        start <= end,
    ensures
        in_recording_window(unix_s, start, end) <==> start - 5 <= unix_s <= end + 5,
{
}

/// A recording that ends long before it started still has the titles of the five seconds before
/// its start.
pub proof fn law_titles_of_a_reversed_recording(unix_s: i64, start: i64, end: i64)
    requires
        end < start - 5,
    ensures
        in_recording_window(unix_s, start, end) <==> start - 5 <= unix_s <= start,
{
}

} // verus!
