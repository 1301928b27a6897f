//! The keyboard handler: a function from the application state and a key
//! press to the next state and the cluster request, if any, that the caller
//! carries out and reports back (see the `on_*` methods of `App`).

use vstd::prelude::*;
use vstd::view::View as _;
use crate::app::{find_topic, lemma_find_topic, App, AppModel, InputMode, View};
use crate::app::form::{
    auth_at, current_fields, empty_form, field_text, focused_field, focused_position, form_fields,
    form_of, form_valid, is_text_field, with_field_text, ClusterFormField, ClusterFormModel,
    AUTH_MECHANISM_COUNT,
};
use crate::config::cluster::ClusterConfig;
use crate::kafka::metadata::{PartitionMeta, TopicMeta};
use crate::text::{contains_str, contains_text, owned, pop_char, push_char, push_str};

verus! {

/// A key, as far as the handler tells keys apart.
#[derive(Debug, Clone, Copy, PartialEq, Eq, Structural)]
pub enum KeyCode {
    Char(char),
    Enter,
    Esc,
    Up,
    Down,
    Tab,
    BackTab,
    Backspace,
    Other,
}

/// A key press: the key and whether Control was held.
#[derive(Debug, Clone, Copy, PartialEq, Eq, Structural)]
pub struct KeyPress {
    pub code: KeyCode,
    pub ctrl: bool,
}

/// Work on the cluster or on disk that a key press asks for.
#[derive(Debug, Clone, Copy, PartialEq, Eq, Structural)]
pub enum Action {
    /// Nothing to do
    Idle,
    /// Connect to the cluster of the profile at `index`, then report with
    /// `on_connected` or `on_connect_failed`
    Connect { index: usize },
    /// Test the connection to the cluster the form describes
    /// (`cluster_form.to_cluster_config()`), then report with `on_form_tested`
    SaveAndTest,
    /// Fetch the watermarks of the selected topic, then report with
    /// `on_topic_watermarks` or `on_watermarks_failed`
    FetchWatermarks,
    /// Fetch the watermarks of the selected topic again, then report with
    /// `on_offsets_refreshed` or `on_refresh_failed`
    RefreshWatermarks,
    /// Fetch the cluster metadata again (after `begin_refresh`), then report
    /// with `on_metadata_refreshed` or `on_refresh_failed`
    RefreshMetadata,
    /// Save the profile list after a deletion, then report with `finish_delete`
    SaveProfiles,
}

/// The cursor moved down one row in a list of `count > 0` rows, stopping at the last.
pub open spec fn cursor_down(cursor: usize, count: nat) -> usize {
    if cursor + 1 < count {
        (cursor + 1) as usize
    } else {
        (count - 1) as usize
    }
}

/// The cursor moved up one row, stopping at the first.
pub open spec fn cursor_up(cursor: usize) -> usize {
    if cursor > 0 {
        (cursor - 1) as usize
    } else {
        0
    }
}

/// The cursor moved down one row in a list of unknown length.
pub open spec fn cursor_forward(cursor: usize) -> usize {
    if cursor < usize::MAX {
        (cursor + 1) as usize
    } else {
        cursor
    }
}

pub open spec fn scroll_down(s: u64) -> u64 {
    if s < u64::MAX {
        (s + 1) as u64
    } else {
        s
    }
}

pub open spec fn scroll_up(s: u64) -> u64 {
    if s > 0 {
        (s - 1) as u64
    } else {
        0
    }
}

pub open spec fn is_down(c: KeyCode) -> bool {
    c == KeyCode::Down || c == KeyCode::Char('j')
}

pub open spec fn is_up(c: KeyCode) -> bool {
    c == KeyCode::Up || c == KeyCode::Char('k')
}

/// The topics whose name contains `f`, in order.
pub open spec fn topics_matching(ts: Seq<TopicMeta>, f: Seq<char>) -> Seq<TopicMeta>
    decreases ts.len(),
{
    if ts.len() == 0 {
        seq![]
    } else {
        let rest = topics_matching(ts.drop_last(), f);
        if contains_text(ts.last().name@, f) {
            rest.push(ts.last())
        } else {
            rest
        }
    }
}

/// The topic list keeps, in order, exactly the topics whose name contains the
/// filter text.
pub proof fn lemma_topics_matching_filter(ts: Seq<TopicMeta>, f: Seq<char>)
    ensures
        topics_matching(ts, f) == ts.filter(|t: TopicMeta| contains_text(t.name@, f)),
    decreases ts.len(),
{
    reveal(Seq::filter);
    if ts.len() > 0 {
        lemma_topics_matching_filter(ts.drop_last(), f);
    }
}

/// The topics the topic list shows: those whose name contains the filter.
pub open spec fn listed_topics(m: AppModel) -> Seq<TopicMeta> {
    topics_matching(m.metadata.topics@, m.filter)
}

/// The partitions of the selected topic (none when no topic is selected or it is unknown).
pub open spec fn selected_partitions(m: AppModel) -> Seq<PartitionMeta> {
    match m.selected_topic {
        Some(name) => match find_topic(m.metadata.topics@, name) {
            Some(k) => m.metadata.topics@[k].partitions@,
            None => seq![],
        },
        None => seq![],
    }
}

pub open spec fn moved(m: AppModel, cursor: usize) -> AppModel {
    AppModel { list_cursor: cursor, ..m }
}

pub open spec fn in_mode(m: AppModel, mode: InputMode) -> AppModel {
    AppModel { input_mode: mode, ..m }
}

/// Keys on the cluster list.
pub open spec fn cluster_list_step(m: AppModel, c: KeyCode) -> (AppModel, Action) {
    let count = m.profiles.len();
    if is_down(c) && count > 0 {
        (moved(m, cursor_down(m.list_cursor, count)), Action::Idle)
    } else if is_up(c) {
        (moved(m, cursor_up(m.list_cursor)), Action::Idle)
    } else if c == KeyCode::Enter && count > 0 {
        (
            m.with_status("Connecting to "@ + m.profiles[m.list_cursor as int].name@ + "…"@),
            Action::Connect { index: m.list_cursor },
        )
    } else if c == KeyCode::Char('n') {
        (m.form_opened(empty_form(), None), Action::Idle)
    } else if c == KeyCode::Char('e') && count > 0 {
        (
            m.form_opened(form_of(m.profiles[m.list_cursor as int]), Some(m.list_cursor)),
            Action::Idle,
        )
    } else if c == KeyCode::Char('d') && count > 0 {
        (
            in_mode(m, InputMode::Confirm).with_status(
                "Delete '"@ + m.profiles[m.list_cursor as int].name@ + "'? (y/n)"@,
            ),
            Action::Idle,
        )
    } else {
        (m, Action::Idle)
    }
}

/// Keys on the topic list.
pub open spec fn topic_list_step(m: AppModel, c: KeyCode) -> (AppModel, Action) {
    let topics = listed_topics(m);
    let count = topics.len();
    if is_down(c) && count > 0 {
        (moved(m, cursor_down(m.list_cursor, count)), Action::Idle)
    } else if is_up(c) {
        (moved(m, cursor_up(m.list_cursor)), Action::Idle)
    } else if c == KeyCode::Enter && count > 0 {
        let chosen = if m.list_cursor < count {
            m.list_cursor as int
        } else {
            count - 1
        };
        (
            (AppModel {
                selected_topic: Some(topics[chosen].name@),
                watermarks: seq![],
                ..m
            }).navigated_to(View::PartitionDetail),
            Action::FetchWatermarks,
        )
    } else if c == KeyCode::Char('b') {
        (m.navigated_to(View::BrokerInfo), Action::Idle)
    } else if c == KeyCode::Char('g') {
        (m.navigated_to(View::ConsumerGroups), Action::Idle)
    } else if c == KeyCode::Char('s') {
        (m.navigated_to(View::SchemaRegistry), Action::Idle)
    } else if c == KeyCode::Char('a') {
        (m.navigated_to(View::AclManagement), Action::Idle)
    } else if c == KeyCode::Char('p') {
        (m.navigated_to(View::ProducerForm), Action::Idle)
    } else if c == KeyCode::Char('r') {
        (m, Action::RefreshMetadata)
    } else if c == KeyCode::Char('/') {
        (AppModel { input_mode: InputMode::Editing, search_input: m.filter, ..m }, Action::Idle)
    } else {
        (m, Action::Idle)
    }
}

/// Keys on the partition view.
pub open spec fn partition_step(m: AppModel, c: KeyCode) -> (AppModel, Action) {
    let parts = selected_partitions(m);
    if is_down(c) && parts.len() > 0 {
        (moved(m, cursor_down(m.list_cursor, parts.len())), Action::Idle)
    } else if is_up(c) {
        (moved(m, cursor_up(m.list_cursor)), Action::Idle)
    } else if c == KeyCode::Enter {
        let chosen = if m.list_cursor < parts.len() {
            AppModel { selected_partition: Some(parts[m.list_cursor as int].id), ..m }
        } else {
            m
        };
        (chosen.navigated_to(View::MessageBrowser), Action::Idle)
    } else if c == KeyCode::Char('r') && m.selected_topic is Some {
        (m, Action::RefreshWatermarks)
    } else {
        (m, Action::Idle)
    }
}

/// Keys on the broker view.
pub open spec fn broker_step(m: AppModel, c: KeyCode) -> (AppModel, Action) {
    let n = m.metadata.brokers@.len();
    if is_down(c) {
        if n > 0 {
            (moved(m, cursor_down(m.list_cursor, n)), Action::Idle)
        } else {
            (m, Action::Idle)
        }
    } else if is_up(c) {
        (moved(m, cursor_up(m.list_cursor)), Action::Idle)
    } else if c == KeyCode::Char('r') {
        (m, Action::RefreshMetadata)
    } else {
        (m, Action::Idle)
    }
}

/// Keys on the message browser.
pub open spec fn browser_step(m: AppModel, c: KeyCode) -> AppModel {
    if is_down(c) {
        moved(m, cursor_forward(m.list_cursor))
    } else if is_up(c) {
        moved(m, cursor_up(m.list_cursor))
    } else if c == KeyCode::Enter {
        m.navigated_to(View::MessageDetail)
    } else if c == KeyCode::Char('o') {
        (AppModel { input_mode: InputMode::Editing, search_input: seq![], ..m }).with_status(
            "Jump to offset: "@,
        )
    } else if c == KeyCode::Char('p') {
        m.navigated_to(View::ProducerForm)
    } else if c == KeyCode::Char('/') {
        AppModel { input_mode: InputMode::Editing, search_input: seq![], ..m }
    } else {
        m
    }
}

/// Keys on the message detail.
pub open spec fn detail_step(m: AppModel, c: KeyCode) -> AppModel {
    if is_down(c) {
        AppModel { scroll_offset: scroll_down(m.scroll_offset), ..m }
    } else if is_up(c) {
        AppModel { scroll_offset: scroll_up(m.scroll_offset), ..m }
    } else {
        m
    }
}

/// Keys on the consumer group list.
pub open spec fn groups_step(m: AppModel, c: KeyCode) -> AppModel {
    if is_down(c) {
        moved(m, cursor_forward(m.list_cursor))
    } else if is_up(c) {
        moved(m, cursor_up(m.list_cursor))
    } else if c == KeyCode::Enter {
        m.navigated_to(View::ConsumerGroupDetail)
    } else if c == KeyCode::Char('r') {
        m.with_status("Refreshing consumer groups…"@)
    } else {
        m
    }
}

/// Keys on a consumer group's detail.
pub open spec fn group_detail_step(m: AppModel, c: KeyCode) -> AppModel {
    if is_down(c) {
        moved(m, cursor_forward(m.list_cursor))
    } else if is_up(c) {
        moved(m, cursor_up(m.list_cursor))
    } else if c == KeyCode::Char('R') {
        in_mode(m, InputMode::Confirm).with_status("Reset offsets to earliest? (y/n)"@)
    } else {
        m
    }
}

/// Keys in normal mode: `q`/Esc go back (or quit at the first view), `?`
/// opens the help, anything else goes to the current view.
pub open spec fn normal_step(m: AppModel, c: KeyCode) -> (AppModel, Action) {
    if c == KeyCode::Char('q') || c == KeyCode::Esc {
        if m.view_stack.len() == 0 {
            (AppModel { should_quit: true, ..m }, Action::Idle)
        } else {
            (m.navigated_back(), Action::Idle)
        }
    } else if c == KeyCode::Char('?') {
        (m.navigated_to(View::Help), Action::Idle)
    } else {
        match m.current_view {
            View::ClusterList => cluster_list_step(m, c),
            View::TopicList => topic_list_step(m, c),
            View::PartitionDetail => partition_step(m, c),
            View::MessageBrowser => (browser_step(m, c), Action::Idle),
            View::MessageDetail => (detail_step(m, c), Action::Idle),
            View::ConsumerGroups => (groups_step(m, c), Action::Idle),
            View::ConsumerGroupDetail => (group_detail_step(m, c), Action::Idle),
            View::BrokerInfo => broker_step(m, c),
            View::Help => (m.navigated_back(), Action::Idle),
            _ => (m, Action::Idle),
        }
    }
}

/// Keys while typing a filter: Esc stops, Enter applies the input as the topic
/// filter, Backspace deletes, characters are typed.
pub open spec fn editing_step(m: AppModel, c: KeyCode) -> AppModel {
    match c {
        KeyCode::Esc => in_mode(m, InputMode::Normal),
        KeyCode::Enter => AppModel {
            filter: m.search_input,
            list_cursor: 0,
            input_mode: InputMode::Normal,
            ..m
        },
        KeyCode::Backspace => AppModel {
            search_input: if m.search_input.len() > 0 {
                m.search_input.drop_last()
            } else {
                m.search_input
            },
            ..m
        },
        KeyCode::Char(ch) => AppModel { search_input: m.search_input.push(ch), ..m },
        _ => m,
    }
}

/// The form with field `i` focused.
pub open spec fn focus_on(f: ClusterFormModel, i: int) -> ClusterFormModel {
    ClusterFormModel { focused_field_index: i as usize, ..f }
}

/// The form with mechanism `a` chosen; the focus stays where it was, held to
/// the last field of the new mechanism.
pub open spec fn auth_chosen(f: ClusterFormModel, a: int) -> ClusterFormModel {
    let focused = focused_position(f);
    let new_max = form_fields(auth_at(a)).len() - 1;
    ClusterFormModel {
        auth_index: a as usize,
        focused_field_index: (if focused < new_max {
            focused
        } else {
            new_max
        }) as usize,
        ..f
    }
}

/// The state with the cluster form replaced.
pub open spec fn with_form(m: AppModel, f: ClusterFormModel) -> AppModel {
    AppModel { cluster_form: f, ..m }
}

/// What the submit button does: a form without a name or bootstrap servers
/// is refused with an error; otherwise the connection is tested.
pub open spec fn submit_step(m: AppModel) -> (AppModel, Action) {
    if !form_valid(m.cluster_form) {
        (m.with_error("Name and Bootstrap Servers are required"@), Action::Idle)
    } else {
        (
            m.with_status("Testing connection to "@ + m.cluster_form.bootstrap_servers + "…"@),
            Action::SaveAndTest,
        )
    }
}

/// Keys in the cluster form: Esc closes it, Tab and Shift+Tab move between
/// fields, Enter submits, cycles the mechanism, flips the hostname switch or
/// moves on; the arrows (and `j`/`k`) choose the mechanism or the hostname
/// switch or move between fields; Backspace and characters edit the text of
/// the focused field.
pub open spec fn form_step(m: AppModel, c: KeyCode) -> (AppModel, Action) {
    let f = m.cluster_form;
    let max = current_fields(f).len() - 1;
    let focused = focused_position(f);
    let field = focused_field(f);
    let next = if focused + 1 < max {
        focused + 1
    } else {
        max
    };
    let prev = if focused > 0 {
        focused - 1
    } else {
        0
    };
    let a = f.auth_index as int;
    if c == KeyCode::Esc {
        (in_mode(m, InputMode::Normal).navigated_back(), Action::Idle)
    } else if c == KeyCode::Tab {
        (with_form(m, focus_on(f, next)), Action::Idle)
    } else if c == KeyCode::BackTab {
        (with_form(m, focus_on(f, prev)), Action::Idle)
    } else if c == KeyCode::Enter {
        if field == ClusterFormField::Submit {
            submit_step(m)
        } else if field == ClusterFormField::AuthMechanism {
            (with_form(m, auth_chosen(f, (a + 1) % 6)), Action::Idle)
        } else if field == ClusterFormField::VerifyHostname {
            (
                with_form(m, ClusterFormModel { verify_hostname: !f.verify_hostname, ..f }),
                Action::Idle,
            )
        } else {
            (with_form(m, focus_on(f, next)), Action::Idle)
        }
    } else if is_down(c) {
        if field == ClusterFormField::AuthMechanism {
            (
                with_form(
                    m,
                    auth_chosen(
                        f,
                        (if a + 1 < 5 {
                            a + 1
                        } else {
                            5
                        }),
                    ),
                ),
                Action::Idle,
            )
        } else if field == ClusterFormField::VerifyHostname {
            (with_form(m, ClusterFormModel { verify_hostname: false, ..f }), Action::Idle)
        } else {
            (with_form(m, focus_on(f, next)), Action::Idle)
        }
    } else if is_up(c) {
        if field == ClusterFormField::AuthMechanism {
            (
                with_form(
                    m,
                    auth_chosen(
                        f,
                        (if a > 0 {
                            a - 1
                        } else {
                            0
                        }),
                    ),
                ),
                Action::Idle,
            )
        } else if field == ClusterFormField::VerifyHostname {
            (with_form(m, ClusterFormModel { verify_hostname: true, ..f }), Action::Idle)
        } else {
            (with_form(m, focus_on(f, prev)), Action::Idle)
        }
    } else if c == KeyCode::Backspace {
        let t = field_text(f, field);
        if is_text_field(field) && t.len() > 0 {
            (with_form(m, with_field_text(f, field, t.drop_last())), Action::Idle)
        } else {
            (m, Action::Idle)
        }
    } else {
        match c {
            KeyCode::Char(ch) => if is_text_field(field) {
                (
                    with_form(m, with_field_text(f, field, field_text(f, field).push(ch))),
                    Action::Idle,
                )
            } else {
                (m, Action::Idle)
            },
            _ => (m, Action::Idle),
        }
    }
}

/// Keys while a confirmation is open: `y` confirms (on the cluster list this
/// deletes the profile under the cursor), `n` or Esc cancels.
pub open spec fn confirm_step(m: AppModel, c: KeyCode) -> (AppModel, Action) {
    if c == KeyCode::Char('y') || c == KeyCode::Char('Y') {
        let closed = AppModel { input_mode: InputMode::Normal, status_message: None, ..m };
        if m.current_view == View::ClusterList {
            if m.list_cursor < m.profiles.len() {
                (
                    AppModel { profiles: m.profiles.remove(m.list_cursor as int), ..closed },
                    Action::SaveProfiles,
                )
            } else {
                (moved(closed, cursor_up(m.list_cursor)), Action::Idle)
            }
        } else {
            (closed, Action::Idle)
        }
    } else if c == KeyCode::Char('n') || c == KeyCode::Char('N') || c == KeyCode::Esc {
        (AppModel { input_mode: InputMode::Normal, status_message: None, ..m }, Action::Idle)
    } else {
        (m, Action::Idle)
    }
}

/// What a key press does: Ctrl+C quits, a shown error is dismissed by any
/// key, otherwise the input mode decides.
pub open spec fn key_step(m: AppModel, k: KeyPress) -> (AppModel, Action) {
    if k.code == KeyCode::Char('c') && k.ctrl {
        (AppModel { should_quit: true, ..m }, Action::Idle)
    } else if m.error_message is Some {
        (AppModel { error_message: None, ..m }, Action::Idle)
    } else {
        match m.input_mode {
            InputMode::Normal => normal_step(m, k.code),
            InputMode::Editing => if m.current_view == View::ClusterForm {
                form_step(m, k.code)
            } else {
                (editing_step(m, k.code), Action::Idle)
            },
            InputMode::Confirm => confirm_step(m, k.code),
        }
    }
}

/// The key presses the handler accepts: on the cluster list, connecting to,
/// editing or deleting the profile under the cursor needs the cursor on a
/// profile; in the cluster form the chosen mechanism must be one of the list.
pub open spec fn key_allowed(m: AppModel, k: KeyPress) -> bool {
    let routed = m.error_message is None && !(k.code == KeyCode::Char('c') && k.ctrl);
    &&& (routed && m.input_mode == InputMode::Normal && m.current_view == View::ClusterList && (
    k.code == KeyCode::Enter || k.code == KeyCode::Char('d') || k.code == KeyCode::Char('e'))
        && m.profiles.len() > 0) ==> m.list_cursor < m.profiles.len()
    &&& (routed && m.input_mode == InputMode::Editing && m.current_view == View::ClusterForm)
        ==> m.cluster_form.auth_index < AUTH_MECHANISM_COUNT
}

/// Ctrl+C quits at once, whatever the state, and changes nothing else.
pub proof fn lemma_ctrl_c_quits(m: AppModel)
    ensures
        key_step(m, KeyPress { code: KeyCode::Char('c'), ctrl: true }) == (
            AppModel { should_quit: true, ..m },
            Action::Idle,
        ),
{
}

/// While an error is shown, any other key only dismisses it.
pub proof fn lemma_key_dismisses_error(m: AppModel, k: KeyPress)
    requires
        m.error_message is Some,
        !(k.code == KeyCode::Char('c') && k.ctrl),
    ensures
        key_step(m, k) == (AppModel { error_message: None, ..m }, Action::Idle),
{
}

/// `q` and Esc go back to the previous view, or quit at the first one.
pub proof fn lemma_back_or_quit(m: AppModel, k: KeyPress)
    requires
        m.error_message is None,
        m.input_mode == InputMode::Normal,
        k.code == KeyCode::Char('q') || k.code == KeyCode::Esc,
    ensures
        m.view_stack.len() == 0 ==> key_step(m, k) == (
            AppModel { should_quit: true, ..m },
            Action::Idle,
        ),
        m.view_stack.len() > 0 ==> key_step(m, k) == (m.navigated_back(), Action::Idle),
{
}

/// `?` opens the help, and the next key (other than `?` and Ctrl+C) closes it:
/// the view and the back stack are as before, cursor and scroll reset.
pub proof fn lemma_help_round_trip(m: AppModel, k: KeyPress)
    requires
        m.error_message is None,
        m.input_mode == InputMode::Normal,
        !(k.code == KeyCode::Char('c') && k.ctrl),
        k.code != KeyCode::Char('?'),
    ensures
        ({
            let opened = key_step(m, KeyPress { code: KeyCode::Char('?'), ctrl: false });
            &&& opened.0.current_view == View::Help
            &&& key_step(opened.0, k) == (
                AppModel { list_cursor: 0, scroll_offset: 0, ..m },
                Action::Idle,
            )
        }),
{
    crate::app::lemma_navigate_round_trip(m, View::Help);
}

/// Moving down a list that has rows keeps the cursor on a row.
pub proof fn lemma_cursor_down_in_list(cursor: usize, count: nat)
    requires
        0 < count <= usize::MAX,
    ensures
        cursor_down(cursor, count) < count,
        cursor < count ==> cursor <= cursor_down(cursor, count),
{
}

/// On the cluster list, the arrow keys and `j`/`k` move the cursor one row,
/// stopping at the first and last profile, so that it stays on a profile.
pub proof fn lemma_cluster_list_cursor(m: AppModel, k: KeyPress)
    requires
        m.error_message is None,
        m.input_mode == InputMode::Normal,
        m.current_view == View::ClusterList,
        m.list_cursor < m.profiles.len(),
        is_down(k.code) || is_up(k.code),
    ensures
        key_step(m, k) == (
            moved(
                m,
                (if is_down(k.code) {
                    cursor_down(m.list_cursor, m.profiles.len())
                } else {
                    cursor_up(m.list_cursor)
                }),
            ),
            Action::Idle,
        ),
        key_step(m, k).0.list_cursor < m.profiles.len(),
{
}

/// On the cluster list, Enter connects to the profile under the cursor and
/// says so, naming that profile.
pub proof fn lemma_cluster_list_connect(m: AppModel)
    requires
        m.error_message is None,
        m.input_mode == InputMode::Normal,
        m.current_view == View::ClusterList,
        m.list_cursor < m.profiles.len(),
    ensures
        key_step(m, (KeyPress { code: KeyCode::Enter, ctrl: false })).1 == (Action::Connect {
            index: m.list_cursor,
        }),
        key_step(m, (KeyPress { code: KeyCode::Enter, ctrl: false })).0 == m.with_status(
            "Connecting to "@ + m.profiles[m.list_cursor as int].name@ + "…"@,
        ),
{
}

/// On the cluster list, `d` then `y` deletes the profile under the cursor and
/// asks for the list to be saved; `d` then `n` deletes nothing.
pub proof fn lemma_delete_profile(m: AppModel)
    requires
        m.error_message is None,
        m.input_mode == InputMode::Normal,
        m.current_view == View::ClusterList,
        m.list_cursor < m.profiles.len(),
    ensures
        ({
            let asked = key_step(m, KeyPress { code: KeyCode::Char('d'), ctrl: false }).0;
            let yes = key_step(asked, KeyPress { code: KeyCode::Char('y'), ctrl: false });
            let no = key_step(asked, KeyPress { code: KeyCode::Char('n'), ctrl: false });
            &&& asked.input_mode == InputMode::Confirm
            &&& yes.0.profiles == m.profiles.remove(m.list_cursor as int)
            &&& yes.1 == Action::SaveProfiles
            &&& yes.0.input_mode == InputMode::Normal
            &&& yes.0.status_message is None
            &&& no.0.profiles == m.profiles
            &&& no.1 == Action::Idle
            &&& no.0.input_mode == InputMode::Normal
        }),
{
}

/// Every key in the cluster form keeps the chosen mechanism one of the list,
/// and only Esc leaves the form.
pub proof fn lemma_form_keeps_auth(m: AppModel, c: KeyCode)
    requires
        m.cluster_form.auth_index < AUTH_MECHANISM_COUNT,
    ensures
        form_step(m, c).0.cluster_form.auth_index < AUTH_MECHANISM_COUNT,
        c != KeyCode::Esc ==> form_step(m, c).0.current_view == m.current_view
            && form_step(m, c).0.input_mode == m.input_mode,
{
}

/// Submitting a form whose name or bootstrap servers are blank shows the
/// error "Name and Bootstrap Servers are required" and asks for nothing.
pub proof fn lemma_form_requires_name_and_servers(m: AppModel)
    requires
        focused_field(m.cluster_form) == ClusterFormField::Submit,
        !form_valid(m.cluster_form),
    ensures
        form_step(m, KeyCode::Enter) == (
            m.with_error("Name and Bootstrap Servers are required"@),
            Action::Idle,
        ),
{
}

/// In a text field of the form, a typed character followed by Backspace
/// leaves the form as it was (`j` and `k` move between fields instead).
pub proof fn lemma_form_type_then_erase(m: AppModel, ch: char)
    requires
        is_text_field(focused_field(m.cluster_form)),
        ch != 'j',
        ch != 'k',
    ensures
        form_step(form_step(m, KeyCode::Char(ch)).0, KeyCode::Backspace).0 == m,
{
    let f = m.cluster_form;
    let field = focused_field(f);
    let t = field_text(f, field);
    let f2 = with_field_text(f, field, t.push(ch));
    assert(field_text(f2, field) == t.push(ch));
    assert(focused_field(f2) == field);
    assert(t.push(ch).drop_last() =~= t);
    assert(with_field_text(f2, field, t) == f);
}

/// While typing a filter, a character followed by Backspace leaves the input as it was,
/// and Enter makes the input the topic filter.
pub proof fn lemma_typing(m: AppModel, ch: char)
    requires
        m.error_message is None,
        m.input_mode == InputMode::Editing,
        m.current_view != View::ClusterForm,
    ensures
        key_step(
            key_step(m, KeyPress { code: KeyCode::Char(ch), ctrl: false }).0,
            KeyPress { code: KeyCode::Backspace, ctrl: false },
        ).0 == m,
        key_step(m, KeyPress { code: KeyCode::Enter, ctrl: false }).0.filter == m.search_input,
        key_step(m, KeyPress { code: KeyCode::Enter, ctrl: false }).0.input_mode
            == InputMode::Normal,
{
    assert(m.search_input.push(ch).drop_last() =~= m.search_input);
}

fn down_from(cursor: usize, count: usize) -> (r: usize)
    requires
        count > 0,
    ensures
        r == cursor_down(cursor, count as nat),
{
    if cursor < count - 1 {
        cursor + 1
    } else {
        count - 1
    }
}

fn up_from(cursor: usize) -> (r: usize)
    ensures
        r == cursor_up(cursor),
{
    if cursor > 0 {
        cursor - 1
    } else {
        0
    }
}

fn is_down_key(c: KeyCode) -> (b: bool)
    ensures
        b == is_down(c),
{
    c == KeyCode::Down || c == KeyCode::Char('j')
}

fn is_up_key(c: KeyCode) -> (b: bool)
    ensures
        b == is_up(c),
{
    c == KeyCode::Up || c == KeyCode::Char('k')
}

fn quoted(lead: &str, name: &String, tail: &str) -> (s: String)
    ensures
        s@ == lead@ + name@ + tail@,
{
    let mut s = owned(lead);
    push_str(&mut s, name.as_str());
    push_str(&mut s, tail);
    s
}

impl App {
    /// Positions in the topic list of the topics whose name contains the filter.
    pub fn visible_topic_indices(&self) -> (idx: Vec<usize>)
        ensures
            idx@.len() == listed_topics(self@).len(),
            forall|k: int|
                0 <= k < idx@.len() ==> idx@[k] < self.metadata.topics@.len()
                    && self.metadata.topics@[idx@[k] as int] == #[trigger] listed_topics(
                    self@,
                )[k],
    {
        let ghost ts = self.metadata.topics@;
        let ghost f = self.filter@;
        let ghost mut kept: Seq<TopicMeta> = seq![];
        let mut idx: Vec<usize> = Vec::new();
        let mut i: usize = 0;
        while i < self.metadata.topics.len()
            invariant
                ts == self.metadata.topics@,
                f == self.filter@,
                i <= ts.len(),
                kept == topics_matching(ts.take(i as int), f),
                idx@.len() == kept.len(),
                forall|k: int| 0 <= k < idx@.len() ==> #[trigger] idx@[k] < i && ts[idx@[k] as int] == kept[k],
            decreases ts.len() - i,
        {
            assert(ts.take(i + 1).drop_last() =~= ts.take(i as int));
            assert(ts.take(i + 1).last() == ts[i as int]);
            let hit = contains_str(self.metadata.topics[i].name.as_str(), self.filter.as_str());
            if hit {
                idx.push(i);
                proof {
                    kept = kept.push(ts[i as int]);
                }
            }
            i = i + 1;
        }
        assert(ts.take(ts.len() as int) =~= ts);
        idx
    }

    fn selected_topic_position(&self) -> (r: Option<usize>)
        ensures
            match self@.selected_topic {
                Some(name) => match r {
                    Some(k) => find_topic(self.metadata.topics@, name) == Some(k as int),
                    None => find_topic(self.metadata.topics@, name) is None,
                },
                None => r is None,
            },
            r matches Some(k) ==> k < self.metadata.topics@.len(),
    {
        match &self.selected_topic {
            Some(name) => {
                proof {
                    lemma_find_topic(self.metadata.topics@, name@);
                }
                crate::app::topic_position(&self.metadata.topics, name.as_str())
            },
            None => None,
        }
    }

    fn cluster_list_key(&mut self, c: KeyCode) -> (a: Action)
        requires
            old(self)@.profiles.len() > 0 && (c == KeyCode::Enter || c == KeyCode::Char('d') || c
                == KeyCode::Char('e')) ==> old(self)@.list_cursor < old(self)@.profiles.len(),
        ensures
            (final(self)@, a) == cluster_list_step(old(self)@, c),
    {
        let count = self.profile_manager.profiles.len();
        if is_down_key(c) && count > 0 {
            self.list_cursor = down_from(self.list_cursor, count);
            Action::Idle
        } else if is_up_key(c) {
            self.list_cursor = up_from(self.list_cursor);
            Action::Idle
        } else if c == KeyCode::Enter && count > 0 {
            let msg = quoted(
                "Connecting to ",
                &self.profile_manager.profiles[self.list_cursor].name,
                "…",
            );
            self.set_status(msg);
            Action::Connect { index: self.list_cursor }
        } else if c == KeyCode::Char('n') {
            self.open_new_cluster_form();
            Action::Idle
        } else if c == KeyCode::Char('e') && count > 0 {
            let idx = self.list_cursor;
            self.open_edit_cluster_form(idx);
            Action::Idle
        } else if c == KeyCode::Char('d') && count > 0 {
            self.input_mode = InputMode::Confirm;
            let msg = quoted(
                "Delete '",
                &self.profile_manager.profiles[self.list_cursor].name,
                "'? (y/n)",
            );
            self.set_status(msg);
            Action::Idle
        } else {
            Action::Idle
        }
    }

    fn topic_list_key(&mut self, c: KeyCode) -> (a: Action)
        ensures
            (final(self)@, a) == topic_list_step(old(self)@, c),
    {
        let idx = self.visible_topic_indices();
        let count = idx.len();
        if is_down_key(c) && count > 0 {
            self.list_cursor = down_from(self.list_cursor, count);
            Action::Idle
        } else if is_up_key(c) {
            self.list_cursor = up_from(self.list_cursor);
            Action::Idle
        } else if c == KeyCode::Enter && count > 0 {
            let chosen = if self.list_cursor < count {
                self.list_cursor
            } else {
                count - 1
            };
            assert(listed_topics(old(self)@)[chosen as int] == self.metadata.topics@[idx@[chosen as int] as int]);
            let name = self.metadata.topics[idx[chosen]].name.clone();
            self.selected_topic = Some(name);
            self.watermarks = Vec::new();
            self.navigate_to(View::PartitionDetail);
            Action::FetchWatermarks
        } else if c == KeyCode::Char('b') {
            self.navigate_to(View::BrokerInfo);
            Action::Idle
        } else if c == KeyCode::Char('g') {
            self.navigate_to(View::ConsumerGroups);
            Action::Idle
        } else if c == KeyCode::Char('s') {
            self.navigate_to(View::SchemaRegistry);
            Action::Idle
        } else if c == KeyCode::Char('a') {
            self.navigate_to(View::AclManagement);
            Action::Idle
        } else if c == KeyCode::Char('p') {
            self.navigate_to(View::ProducerForm);
            Action::Idle
        } else if c == KeyCode::Char('r') {
            Action::RefreshMetadata
        } else if c == KeyCode::Char('/') {
            self.input_mode = InputMode::Editing;
            self.search_input = self.filter.clone();
            Action::Idle
        } else {
            Action::Idle
        }
    }

    fn selected_partition_count(&self) -> (n: usize)
        ensures
            n == selected_partitions(self@).len(),
    {
        let pos = self.selected_topic_position();
        proof {
            if let Some(name) = self@.selected_topic {
                lemma_find_topic(self.metadata.topics@, name);
            }
        }
        match pos {
            Some(k) => self.metadata.topics[k].partitions.len(),
            None => 0,
        }
    }

    fn selected_partition_id(&self, i: usize) -> (r: Option<i32>)
        ensures
            i < selected_partitions(self@).len() ==> r == Some(selected_partitions(self@)[i as int].id),
            i >= selected_partitions(self@).len() ==> r is None,
    {
        let pos = self.selected_topic_position();
        proof {
            if let Some(name) = self@.selected_topic {
                lemma_find_topic(self.metadata.topics@, name);
            }
        }
        match pos {
            Some(k) => {
                if i < self.metadata.topics[k].partitions.len() {
                    Some(self.metadata.topics[k].partitions[i].id)
                } else {
                    None
                }
            },
            None => None,
        }
    }

    fn partition_key(&mut self, c: KeyCode) -> (a: Action)
        ensures
            (final(self)@, a) == partition_step(old(self)@, c),
    {
        let n = self.selected_partition_count();
        if is_down_key(c) && n > 0 {
            self.list_cursor = down_from(self.list_cursor, n);
            Action::Idle
        } else if is_up_key(c) {
            self.list_cursor = up_from(self.list_cursor);
            Action::Idle
        } else if c == KeyCode::Enter {
            if let Some(id) = self.selected_partition_id(self.list_cursor) {
                self.selected_partition = Some(id);
            }
            self.navigate_to(View::MessageBrowser);
            Action::Idle
        } else if c == KeyCode::Char('r') && self.selected_topic.is_some() {
            Action::RefreshWatermarks
        } else {
            Action::Idle
        }
    }

    fn broker_key(&mut self, c: KeyCode) -> (a: Action)
        ensures
            (final(self)@, a) == broker_step(old(self)@, c),
    {
        if is_down_key(c) {
            let n = self.metadata.brokers.len();
            if n > 0 {
                self.list_cursor = down_from(self.list_cursor, n);
            }
            Action::Idle
        } else if is_up_key(c) {
            self.list_cursor = up_from(self.list_cursor);
            Action::Idle
        } else if c == KeyCode::Char('r') {
            Action::RefreshMetadata
        } else {
            Action::Idle
        }
    }

    fn browser_key(&mut self, c: KeyCode)
        ensures
            final(self)@ == browser_step(old(self)@, c),
    {
        if is_down_key(c) {
            self.list_cursor = self.list_cursor.saturating_add(1);
        } else if is_up_key(c) {
            self.list_cursor = up_from(self.list_cursor);
        } else if c == KeyCode::Enter {
            self.navigate_to(View::MessageDetail);
        } else if c == KeyCode::Char('o') {
            self.input_mode = InputMode::Editing;
            self.search_input = String::new();
            self.set_status(owned("Jump to offset: "));
        } else if c == KeyCode::Char('p') {
            self.navigate_to(View::ProducerForm);
        } else if c == KeyCode::Char('/') {
            self.input_mode = InputMode::Editing;
            self.search_input = String::new();
        }
    }

    fn detail_key(&mut self, c: KeyCode)
        ensures
            final(self)@ == detail_step(old(self)@, c),
    {
        if is_down_key(c) {
            self.scroll_offset = self.scroll_offset.saturating_add(1);
        } else if is_up_key(c) {
            self.scroll_offset = self.scroll_offset.saturating_sub(1);
        }
    }

    fn groups_key(&mut self, c: KeyCode)
        ensures
            final(self)@ == groups_step(old(self)@, c),
    {
        if is_down_key(c) {
            self.list_cursor = self.list_cursor.saturating_add(1);
        } else if is_up_key(c) {
            self.list_cursor = up_from(self.list_cursor);
        } else if c == KeyCode::Enter {
            self.navigate_to(View::ConsumerGroupDetail);
        } else if c == KeyCode::Char('r') {
            self.set_status(owned("Refreshing consumer groups…"));
        }
    }

    fn group_detail_key(&mut self, c: KeyCode)
        ensures
            final(self)@ == group_detail_step(old(self)@, c),
    {
        if is_down_key(c) {
            self.list_cursor = self.list_cursor.saturating_add(1);
        } else if is_up_key(c) {
            self.list_cursor = up_from(self.list_cursor);
        } else if c == KeyCode::Char('R') {
            self.input_mode = InputMode::Confirm;
            self.set_status(owned("Reset offsets to earliest? (y/n)"));
        }
    }

    fn normal_key(&mut self, c: KeyCode) -> (a: Action)
        requires
            old(self)@.current_view == View::ClusterList && old(self)@.profiles.len() > 0 && (c
                == KeyCode::Enter || c == KeyCode::Char('d') || c == KeyCode::Char('e'))
                ==> old(self)@.list_cursor < old(self)@.profiles.len(),
        ensures
            (final(self)@, a) == normal_step(old(self)@, c),
    {
        if c == KeyCode::Char('q') || c == KeyCode::Esc {
            if self.view_stack.len() == 0 {
                self.should_quit = true;
            } else {
                self.navigate_back();
            }
            return Action::Idle;
        }
        if c == KeyCode::Char('?') {
            self.navigate_to(View::Help);
            return Action::Idle;
        }
        match self.current_view {
            View::ClusterList => self.cluster_list_key(c),
            View::TopicList => self.topic_list_key(c),
            View::PartitionDetail => self.partition_key(c),
            View::MessageBrowser => {
                self.browser_key(c);
                Action::Idle
            },
            View::MessageDetail => {
                self.detail_key(c);
                Action::Idle
            },
            View::ConsumerGroups => {
                self.groups_key(c);
                Action::Idle
            },
            View::ConsumerGroupDetail => {
                self.group_detail_key(c);
                Action::Idle
            },
            View::BrokerInfo => self.broker_key(c),
            View::Help => {
                self.navigate_back();
                Action::Idle
            },
            _ => Action::Idle,
        }
    }

    fn editing_key(&mut self, c: KeyCode)
        ensures
            final(self)@ == editing_step(old(self)@, c),
    {
        match c {
            KeyCode::Esc => {
                self.input_mode = InputMode::Normal;
            },
            KeyCode::Enter => {
                self.filter = self.search_input.clone();
                self.list_cursor = 0;
                self.input_mode = InputMode::Normal;
            },
            KeyCode::Backspace => {
                pop_char(&mut self.search_input);
            },
            KeyCode::Char(ch) => {
                push_char(&mut self.search_input, ch);
            },
            _ => {},
        }
    }

    fn confirm_key(&mut self, c: KeyCode) -> (a: Action)
        ensures
            (final(self)@, a) == confirm_step(old(self)@, c),
    {
        if c == KeyCode::Char('y') || c == KeyCode::Char('Y') {
            let mut a = Action::Idle;
            if self.current_view == View::ClusterList {
                let idx = self.list_cursor;
                if self.profile_manager.remove(idx) {
                    a = Action::SaveProfiles;
                } else {
                    self.list_cursor = up_from(self.list_cursor);
                }
            }
            self.input_mode = InputMode::Normal;
            self.status_message = None;
            a
        } else if c == KeyCode::Char('n') || c == KeyCode::Char('N') || c == KeyCode::Esc {
            self.input_mode = InputMode::Normal;
            self.status_message = None;
            Action::Idle
        } else {
            Action::Idle
        }
    }

    /// Whether the handler accepts this key press in the current state.
    pub fn accepts_key(&self, key: KeyPress) -> (b: bool)
        ensures
            b == key_allowed(self@, key),
    {
        let routed = self.error_message.is_none() && !(key.code == KeyCode::Char('c') && key.ctrl);
        let list_ok = !(routed && self.input_mode == InputMode::Normal && self.current_view
            == View::ClusterList && (key.code == KeyCode::Enter || key.code == KeyCode::Char('d')
            || key.code == KeyCode::Char('e')) && self.profile_manager.profiles.len() > 0)
            || self.list_cursor < self.profile_manager.profiles.len();
        let form_ok = !(routed && self.input_mode == InputMode::Editing && self.current_view
            == View::ClusterForm) || self.cluster_form.auth_index < AUTH_MECHANISM_COUNT;
        list_ok && form_ok
    }

    /// Handles a key in the cluster form.
    pub fn handle_form_key(&mut self, c: KeyCode) -> (a: Action)
        requires
            old(self)@.cluster_form.auth_index < AUTH_MECHANISM_COUNT,
        ensures
            (final(self)@, a) == form_step(old(self)@, c),
    {
        let fields = self.cluster_form.fields();
        let max = fields.len() - 1;
        let focused = if self.cluster_form.focused_field_index < max {
            self.cluster_form.focused_field_index
        } else {
            max
        };
        let field = fields[focused];
        let next = if focused + 1 < max {
            focused + 1
        } else {
            max
        };
        let prev = if focused > 0 {
            focused - 1
        } else {
            0
        };
        let a = self.cluster_form.auth_index;
        if c == KeyCode::Esc {
            self.input_mode = InputMode::Normal;
            self.navigate_back();
            Action::Idle
        } else if c == KeyCode::Tab {
            self.cluster_form.focused_field_index = next;
            Action::Idle
        } else if c == KeyCode::BackTab {
            self.cluster_form.focused_field_index = prev;
            Action::Idle
        } else if c == KeyCode::Enter {
            if field == ClusterFormField::Submit {
                self.submit_form()
            } else if field == ClusterFormField::AuthMechanism {
                self.choose_auth((a + 1) % AUTH_MECHANISM_COUNT, focused);
                Action::Idle
            } else if field == ClusterFormField::VerifyHostname {
                self.cluster_form.verify_hostname = !self.cluster_form.verify_hostname;
                Action::Idle
            } else {
                self.cluster_form.focused_field_index = next;
                Action::Idle
            }
        } else if is_down_key(c) {
            if field == ClusterFormField::AuthMechanism {
                let n = if a + 1 < AUTH_MECHANISM_COUNT - 1 {
                    a + 1
                } else {
                    AUTH_MECHANISM_COUNT - 1
                };
                self.choose_auth(n, focused);
            } else if field == ClusterFormField::VerifyHostname {
                self.cluster_form.verify_hostname = false;
            } else {
                self.cluster_form.focused_field_index = next;
            }
            Action::Idle
        } else if is_up_key(c) {
            if field == ClusterFormField::AuthMechanism {
                let n = if a > 0 {
                    a - 1
                } else {
                    0
                };
                self.choose_auth(n, focused);
            } else if field == ClusterFormField::VerifyHostname {
                self.cluster_form.verify_hostname = true;
            } else {
                self.cluster_form.focused_field_index = prev;
            }
            Action::Idle
        } else if c == KeyCode::Backspace {
            self.cluster_form.erase_char(field);
            Action::Idle
        } else {
            match c {
                KeyCode::Char(ch) => {
                    self.cluster_form.type_char(field, ch);
                },
                _ => {},
            }
            Action::Idle
        }
    }

    fn choose_auth(&mut self, n: usize, focused: usize)
        requires
            n < AUTH_MECHANISM_COUNT,
            focused == focused_position(old(self)@.cluster_form),
        ensures
            final(self)@ == with_form(old(self)@, auth_chosen(old(self)@.cluster_form, n as int)),
    {
        self.cluster_form.auth_index = n;
        let new_max = self.cluster_form.fields().len() - 1;
        self.cluster_form.focused_field_index = if focused < new_max {
            focused
        } else {
            new_max
        };
    }

    fn submit_form(&mut self) -> (a: Action)
        ensures
            (final(self)@, a) == submit_step(old(self)@),
    {
        if !self.cluster_form.is_valid() {
            self.set_error(owned("Name and Bootstrap Servers are required"));
            Action::Idle
        } else {
            let msg = quoted("Testing connection to ", &self.cluster_form.bootstrap_servers, "…");
            self.set_status(msg);
            Action::SaveAndTest
        }
    }

    /// Handles one key press and returns the cluster or disk work it asks for.
    pub fn handle_key_event(&mut self, key: KeyPress) -> (a: Action)
        requires
            key_allowed(old(self)@, key),
        ensures
            (final(self)@, a) == key_step(old(self)@, key),
    {
        if key.code == KeyCode::Char('c') && key.ctrl {
            self.should_quit = true;
            return Action::Idle;
        }
        if self.error_message.is_some() {
            self.error_message = None;
            return Action::Idle;
        }
        match self.input_mode {
            InputMode::Normal => self.normal_key(key.code),
            InputMode::Editing => {
                if self.current_view == View::ClusterForm {
                    self.handle_form_key(key.code)
                } else {
                    self.editing_key(key.code);
                    Action::Idle
                }
            },
            InputMode::Confirm => self.confirm_key(key.code),
        }
    }
}

} // verus!
