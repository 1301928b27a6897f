//! The application state: which view is shown, how the keyboard is routed,
//! the cursor, messages and selections, navigation between views, and what
//! the results of cluster requests do to the state.

pub mod form;

use vstd::prelude::*;
use vstd::view::View as _;
use std::path::PathBuf;
use crate::config::cluster::ClusterConfig;
use self::form::{
    config_of, empty_form, form_of, ClusterForm, ClusterFormModel, AUTH_MECHANISM_COUNT,
};
use crate::config::profile::{ClusterProfile, ProfileManager};
use crate::kafka::metadata::{CachedMetadata, PartitionMeta, TopicMeta};
use crate::text::{decimal, owned, push_decimal, push_str, same_text};
use crate::ui::components::broker_info::user_topics;

verus! {

/// Top-level view/screen of the application.
#[derive(Debug, Clone, Copy, PartialEq, Eq, Structural)]
pub enum View {
    /// Connection/cluster selection screen
    ClusterList,
    /// Form for a new cluster or for editing one
    ClusterForm,
    /// Broker information for the connected cluster
    BrokerInfo,
    /// Topic list
    TopicList,
    /// Partition detail for a selected topic
    PartitionDetail,
    /// Message browser
    MessageBrowser,
    /// Message detail
    MessageDetail,
    /// Consumer group list
    ConsumerGroups,
    /// Consumer group partition detail
    ConsumerGroupDetail,
    /// Producer form
    ProducerForm,
    /// Schema Registry browser
    SchemaRegistry,
    /// Schema detail
    SchemaDetail,
    /// ACL management
    AclManagement,
    /// Help overlay
    Help,
}

/// Input mode determines how keyboard events are routed.
#[derive(Debug, Clone, Copy, PartialEq, Eq, Structural)]
pub enum InputMode {
    Normal,
    /// Text input is active (search, filter)
    Editing,
    /// A confirmation dialog is open
    Confirm,
}

/// Global application state.
pub struct App {
    /// Whether the app should exit on next loop iteration
    pub should_quit: bool,
    /// Current view being rendered
    pub current_view: View,
    /// Previous view stack for back-navigation
    pub view_stack: Vec<View>,
    /// Current input mode
    pub input_mode: InputMode,
    /// Cluster profile manager
    pub profile_manager: ProfileManager,
    /// Currently connected cluster (if any)
    pub active_cluster: Option<ClusterProfile>,
    /// Cursor/selection index for the current list view
    pub list_cursor: usize,
    /// Scroll offset for message/content panels
    pub scroll_offset: u64,
    /// Current search/filter input
    pub search_input: String,
    /// Status bar message (shown at bottom)
    pub status_message: Option<String>,
    /// Error message (shown in a popup)
    pub error_message: Option<String>,
    /// Selected topic name
    pub selected_topic: Option<String>,
    /// Selected partition id
    pub selected_partition: Option<i32>,
    /// Selected consumer group id
    pub selected_group: Option<String>,
    /// Metadata of the connected cluster
    pub metadata: CachedMetadata,
    /// Watermarks `(partition, low, high)` of the selected topic
    pub watermarks: Vec<(i32, i64, i64)>,
    /// Topic name filter of the topic list
    pub filter: String,
    /// The cluster form
    pub cluster_form: ClusterForm,
    /// The profile the cluster form edits; none for a new cluster
    pub cluster_form_edit_index: Option<usize>,
}

/// The state of an `App`, with its texts and lists as sequences.
pub struct AppModel {
    pub should_quit: bool,
    pub current_view: View,
    pub view_stack: Seq<View>,
    pub input_mode: InputMode,
    pub profiles: Seq<ClusterConfig>,
    pub config_path: PathBuf,
    pub active_cluster: Option<ClusterProfile>,
    pub list_cursor: usize,
    pub scroll_offset: u64,
    pub search_input: Seq<char>,
    pub status_message: Option<Seq<char>>,
    pub error_message: Option<Seq<char>>,
    pub selected_topic: Option<Seq<char>>,
    pub selected_partition: Option<i32>,
    pub selected_group: Option<Seq<char>>,
    pub metadata: CachedMetadata,
    pub watermarks: Seq<(i32, i64, i64)>,
    pub filter: Seq<char>,
    pub cluster_form: ClusterFormModel,
    pub cluster_form_edit_index: Option<usize>,
}

/// An optional text as characters.
pub open spec fn opt_chars(s: Option<String>) -> Option<Seq<char>> {
    match s {
        Some(t) => Some(t@),
        None => None,
    }
}

impl vstd::view::View for App {
    type V = AppModel;

    open spec fn view(&self) -> AppModel {
        AppModel {
            should_quit: self.should_quit,
            current_view: self.current_view,
            view_stack: self.view_stack@,
            input_mode: self.input_mode,
            profiles: self.profile_manager.profiles@,
            config_path: self.profile_manager.config_path,
            active_cluster: self.active_cluster,
            list_cursor: self.list_cursor,
            scroll_offset: self.scroll_offset,
            search_input: self.search_input@,
            status_message: opt_chars(self.status_message),
            error_message: opt_chars(self.error_message),
            selected_topic: opt_chars(self.selected_topic),
            selected_partition: self.selected_partition,
            selected_group: opt_chars(self.selected_group),
            metadata: self.metadata,
            watermarks: self.watermarks@,
            filter: self.filter@,
            cluster_form: self.cluster_form@,
            cluster_form_edit_index: self.cluster_form_edit_index,
        }
    }
}

impl AppModel {
    /// `v` shown, the previous view pushed for going back, cursor and scroll reset.
    pub open spec fn navigated_to(self, v: View) -> AppModel {
        AppModel {
            current_view: v,
            view_stack: self.view_stack.push(self.current_view),
            list_cursor: 0,
            scroll_offset: 0,
            ..self
        }
    }

    /// The previous view shown again, cursor and scroll reset; unchanged when
    /// there is no previous view.
    pub open spec fn navigated_back(self) -> AppModel {
        if self.view_stack.len() == 0 {
            self
        } else {
            AppModel {
                current_view: self.view_stack.last(),
                view_stack: self.view_stack.drop_last(),
                list_cursor: 0,
                scroll_offset: 0,
                ..self
            }
        }
    }

    pub open spec fn with_status(self, msg: Seq<char>) -> AppModel {
        AppModel { status_message: Some(msg), ..self }
    }

    pub open spec fn with_error(self, msg: Seq<char>) -> AppModel {
        AppModel { error_message: Some(msg), ..self }
    }
}

impl AppModel {
    /// The cluster form opened with `form`, editing profile `edit` (none for
    /// a new cluster): the form view shown and its keys routed to the form.
    pub open spec fn form_opened(self, form: ClusterFormModel, edit: Option<usize>) -> AppModel {
        AppModel {
            input_mode: InputMode::Editing,
            ..(AppModel { cluster_form: form, cluster_form_edit_index: edit, ..self }).navigated_to(
                View::ClusterForm,
            )
        }
    }

    /// The form closed after saving, with `profiles` as the new profile list.
    pub open spec fn form_saved(self, profiles: Seq<ClusterConfig>) -> AppModel {
        (AppModel { profiles, input_mode: InputMode::Normal, ..self }).navigated_back()
    }
}

/// Whether `after` is `before` with the form's cluster stored: in place of
/// profile `i` when editing it, appended otherwise.
pub open spec fn profile_stored(
    before: Seq<ClusterConfig>,
    after: Seq<ClusterConfig>,
    form: ClusterFormModel,
    edit: Option<usize>,
) -> bool {
    let pos = match edit {
        Some(i) => i as int,
        None => before.len() as int,
    };
    &&& after.len() == before.len() + (if edit is Some {
        0int
    } else {
        1int
    })
    &&& forall|j: int| 0 <= j < before.len() && j != pos ==> #[trigger] after[j] == before[j]
    &&& config_of(form, after[pos])
}

/// The status after a saved cluster connected.
pub open spec fn saved_status(name: Seq<char>, m: CachedMetadata) -> Seq<char> {
    "✓ '"@ + name + "' saved — "@ + decimal(m.brokers@.len()) + " broker(s), "@ + decimal(
        user_topic_count(m.topics@),
    ) + " topics"@
}

/// The status after a saved cluster failed its connection test.
pub open spec fn saved_untested_status(name: Seq<char>, e: Seq<char>) -> Seq<char> {
    "Saved '"@ + name + "' (connection test: "@ + e + ")"@
}

/// The number of topics that are not internal.
pub open spec fn user_topic_count(ts: Seq<TopicMeta>) -> nat
    decreases ts.len(),
{
    if ts.len() == 0 {
        0
    } else {
        user_topic_count(ts.drop_last()) + if ts.last().is_internal {
            0nat
        } else {
            1nat
        }
    }
}

/// The status after connecting to a cluster with this metadata.
pub open spec fn connected_status(m: CachedMetadata) -> Seq<char> {
    "Connected — "@ + decimal(m.brokers@.len()) + " broker(s), "@ + decimal(
        user_topic_count(m.topics@),
    ) + " topics"@
}

/// The status after refreshing the metadata.
pub open spec fn refreshed_status(m: CachedMetadata) -> Seq<char> {
    "Refreshed — "@ + decimal(m.brokers@.len()) + " brokers, "@ + decimal(
        user_topic_count(m.topics@),
    ) + " topics"@
}

/// The first watermark row of partition `pid`.
pub open spec fn find_watermark(rows: Seq<(i32, i64, i64)>, pid: i32) -> Option<(i32, i64, i64)>
    decreases rows.len(),
{
    if rows.len() == 0 {
        None
    } else if rows[0].0 == pid {
        Some(rows[0])
    } else {
        find_watermark(rows.drop_first(), pid)
    }
}

/// The index of the first topic called `name`.
pub open spec fn find_topic(ts: Seq<TopicMeta>, name: Seq<char>) -> Option<int>
    decreases ts.len(),
{
    if ts.len() == 0 {
        None
    } else if ts[0].name@ == name {
        Some(0)
    } else {
        match find_topic(ts.drop_first(), name) {
            Some(i) => Some(i + 1),
            None => None,
        }
    }
}

/// A partition with the watermarks of its row, if the table has one.
pub open spec fn with_watermarks(p: PartitionMeta, rows: Seq<(i32, i64, i64)>) -> PartitionMeta {
    match find_watermark(rows, p.id) {
        Some(r) => PartitionMeta { low_watermark: Some(r.1), high_watermark: Some(r.2), ..p },
        None => p,
    }
}

/// Whether `after` is `before` with the partitions of the first topic called
/// `name` given the watermarks of `rows`.
pub open spec fn topics_with_watermarks(
    before: Seq<TopicMeta>,
    after: Seq<TopicMeta>,
    name: Seq<char>,
    rows: Seq<(i32, i64, i64)>,
) -> bool {
    &&& after.len() == before.len()
    &&& forall|j: int|
        0 <= j < before.len() && find_topic(before, name) != Some(j) ==> #[trigger] after[j]
            == before[j]
    &&& find_topic(before, name) matches Some(k) ==> {
        &&& after[k].name == before[k].name
        &&& after[k].is_internal == before[k].is_internal
        &&& after[k].partitions@ == before[k].partitions@.map_values(
            |p: PartitionMeta| with_watermarks(p, rows),
        )
    }
}

fn summary_status(lead: &str, m: &CachedMetadata, brokers_word: &str) -> (s: String)
    ensures
        s@ == lead@ + decimal(m.brokers@.len()) + brokers_word@ + decimal(
            user_topic_count(m.topics@),
        ) + " topics"@,
{
    let mut s = owned(lead);
    push_decimal(&mut s, m.brokers.len() as u64);
    push_str(&mut s, brokers_word);
    push_decimal(&mut s, user_topics(&m.topics) as u64);
    push_str(&mut s, " topics");
    s
}

fn prefixed(lead: &str, detail: &str) -> (s: String)
    ensures
        s@ == lead@ + detail@,
{
    let mut s = owned(lead);
    push_str(&mut s, detail);
    s
}

fn watermark_for(rows: &Vec<(i32, i64, i64)>, pid: i32) -> (r: Option<(i32, i64, i64)>)
    ensures
        r == find_watermark(rows@, pid),
{
    let mut i: usize = 0;
    assert(rows@.skip(0) =~= rows@);
    while i < rows.len()
        invariant
            i <= rows.len(),
            find_watermark(rows@.skip(i as int), pid) == find_watermark(rows@, pid),
        decreases rows.len() - i,
    {
        assert(rows@.skip(i as int)[0] == rows@[i as int]);
        if rows[i].0 == pid {
            return Some(rows[i]);
        }
        assert(rows@.skip(i as int).drop_first() =~= rows@.skip(i + 1));
        i = i + 1;
    }
    None
}

/// The first topic called `name` is one of the topics, has that name, and
/// no earlier topic has it; when none is found, no topic has that name.
pub proof fn lemma_find_topic(ts: Seq<TopicMeta>, name: Seq<char>)
    ensures
        find_topic(ts, name) matches Some(k) ==> 0 <= k < ts.len() && ts[k].name@ == name,
        find_topic(ts, name) matches Some(k) ==> forall|j: int|
            0 <= j < k ==> #[trigger] ts[j].name@ != name,
        find_topic(ts, name) is None ==> forall|j: int|
            0 <= j < ts.len() ==> #[trigger] ts[j].name@ != name,
    decreases ts.len(),
{
    if ts.len() > 0 {
        lemma_find_topic(ts.drop_first(), name);
        assert forall|j: int| 0 < j < ts.len() implies #[trigger] ts[j] == ts.drop_first()[j
            - 1] by {}
    }
}

/// The watermark row found for a partition is the first row with that
/// partition id; when none is found, no row has it.
pub proof fn lemma_find_watermark(rows: Seq<(i32, i64, i64)>, pid: i32)
    ensures
        find_watermark(rows, pid) matches Some(r) ==> r.0 == pid && rows.contains(r),
        find_watermark(rows, pid) is None ==> forall|j: int|
            0 <= j < rows.len() ==> #[trigger] rows[j].0 != pid,
    decreases rows.len(),
{
    if rows.len() > 0 {
        lemma_find_watermark(rows.drop_first(), pid);
        assert forall|j: int| 0 < j < rows.len() implies #[trigger] rows[j] == rows.drop_first()[j
            - 1] by {}
        if rows[0].0 != pid {
            if let Some(r) = find_watermark(rows.drop_first(), pid) {
                let k = choose|k: int| 0 <= k < rows.drop_first().len() && rows.drop_first()[k] == r;
                assert(rows[k + 1] == r);
            }
        } else {
            assert(rows[0] == rows[0]);
        }
    }
}

/// The index of the first topic called `name`.
pub fn topic_position(ts: &Vec<TopicMeta>, name: &str) -> (r: Option<usize>)
    ensures
        match r {
            Some(k) => find_topic(ts@, name@) == Some(k as int),
            None => find_topic(ts@, name@) is None,
        },
{
    proof {
        lemma_find_topic(ts@, name@);
    }
    let mut i: usize = 0;
    assert(ts@.skip(0) =~= ts@);
    while i < ts.len()
        invariant
            i <= ts.len(),
            match find_topic(ts@, name@) {
                Some(k) => find_topic(ts@.skip(i as int), name@) == Some(k - i),
                None => find_topic(ts@.skip(i as int), name@) is None,
            },
        decreases ts.len() - i,
    {
        assert(ts@.skip(i as int)[0] == ts@[i as int]);
        if same_text(ts[i].name.as_str(), name) {
            return Some(i);
        }
        assert(ts@.skip(i as int).drop_first() =~= ts@.skip(i + 1));
        i = i + 1;
    }
    None
}

impl App {
    /// The start state over the loaded cluster profiles: the cluster list,
    /// nothing selected, no messages.
    pub fn new(profile_manager: ProfileManager) -> (app: Self)
        ensures
            !app@.should_quit,
            app@.current_view == View::ClusterList,
            app@.view_stack.len() == 0,
            app@.input_mode == InputMode::Normal,
            app@.profiles == profile_manager.profiles@,
            app@.config_path == profile_manager.config_path,
            app@.active_cluster is None,
            app@.list_cursor == 0,
            app@.scroll_offset == 0,
            app@.search_input.len() == 0,
            app@.status_message is None,
            app@.error_message is None,
            app@.selected_topic is None,
            app@.selected_partition is None,
            app@.selected_group is None,
            app@.metadata.brokers@.len() == 0,
            app@.metadata.topics@.len() == 0,
            app@.metadata.controller_id == 0,
            app@.watermarks.len() == 0,
            app@.filter.len() == 0,
            app@.cluster_form == empty_form(),
            app@.cluster_form_edit_index is None,
    {
        App {
            should_quit: false,
            current_view: View::ClusterList,
            view_stack: Vec::new(),
            input_mode: InputMode::Normal,
            profile_manager,
            active_cluster: None,
            list_cursor: 0,
            scroll_offset: 0,
            search_input: String::new(),
            status_message: None,
            error_message: None,
            selected_topic: None,
            selected_partition: None,
            selected_group: None,
            metadata: CachedMetadata::default(),
            watermarks: Vec::new(),
            filter: String::new(),
            cluster_form: ClusterForm::new(),
            cluster_form_edit_index: None,
        }
    }

    /// Navigates to a new view, pushing the current view onto the stack.
    pub fn navigate_to(&mut self, view: View)
        ensures
            final(self)@ == old(self)@.navigated_to(view),
    {
        let prev = self.current_view;
        self.current_view = view;
        self.view_stack.push(prev);
        self.list_cursor = 0;
        self.scroll_offset = 0;
    }

    /// Navigates back to the previous view, if there is one.
    pub fn navigate_back(&mut self)
        ensures
            final(self)@ == old(self)@.navigated_back(),
    {
        if let Some(prev) = self.view_stack.pop() {
            self.current_view = prev;
            self.list_cursor = 0;
            self.scroll_offset = 0;
        }
    }

    /// Sets the status bar message.
    pub fn set_status(&mut self, msg: String)
        ensures
            final(self)@ == old(self)@.with_status(msg@),
    {
        self.status_message = Some(msg);
    }

    /// Sets the error popup message.
    pub fn set_error(&mut self, msg: String)
        ensures
            final(self)@ == old(self)@.with_error(msg@),
    {
        self.error_message = Some(msg);
    }

    /// Called on every tick of the event loop; nothing is timed yet.
    pub fn on_tick(&mut self)
        ensures
            final(self)@ == old(self)@,
    {
    }

    /// Connecting to `cluster` succeeded with this metadata: it becomes the
    /// active cluster, the topic filter is cleared and the topic list shown.
    pub fn on_connected(&mut self, cluster: ClusterConfig, metadata: CachedMetadata)
        ensures
            final(self)@ == (AppModel {
                metadata,
                active_cluster: Some(ClusterProfile { cluster }),
                filter: Seq::empty(),
                ..old(self)@
            }).navigated_to(View::TopicList).with_status(connected_status(metadata)),
    {
        let msg = summary_status("Connected — ", &metadata, " broker(s), ");
        self.metadata = metadata;
        self.active_cluster = Some(ClusterProfile { cluster });
        self.filter = String::new();
        self.navigate_to(View::TopicList);
        self.set_status(msg);
    }

    /// Connecting failed.
    pub fn on_connect_failed(&mut self, error: &str)
        ensures
            final(self)@ == old(self)@.with_error("Connection failed: "@ + error@),
    {
        self.set_error(prefixed("Connection failed: ", error));
    }

    /// A metadata refresh starts.
    pub fn begin_refresh(&mut self)
        ensures
            final(self)@ == old(self)@.with_status("Refreshing…"@),
    {
        self.set_status(owned("Refreshing…"));
    }

    /// Refreshed metadata arrived.
    pub fn on_metadata_refreshed(&mut self, metadata: CachedMetadata)
        ensures
            final(self)@ == (AppModel { metadata, ..old(self)@ }).with_status(
                refreshed_status(metadata),
            ),
    {
        let msg = summary_status("Refreshed — ", &metadata, " brokers, ");
        self.metadata = metadata;
        self.set_status(msg);
    }

    /// A refresh of metadata or offsets failed.
    pub fn on_refresh_failed(&mut self, error: &str)
        ensures
            final(self)@ == old(self)@.with_error("Refresh failed: "@ + error@),
    {
        self.set_error(prefixed("Refresh failed: ", error));
    }

    /// Watermarks of the topic just opened arrived: they become the table of
    /// the partition view and are recorded on the topic's partitions.
    pub fn on_topic_watermarks(&mut self, topic: &str, rows: Vec<(i32, i64, i64)>)
        ensures
            final(self)@ == (AppModel {
                metadata: final(self)@.metadata,
                watermarks: rows@,
                ..old(self)@
            }),
            final(self)@.metadata.brokers == old(self)@.metadata.brokers,
            final(self)@.metadata.controller_id == old(self)@.metadata.controller_id,
            topics_with_watermarks(
                old(self)@.metadata.topics@,
                final(self)@.metadata.topics@,
                topic@,
                rows@,
            ),
    {
        self.watermarks = rows;
        match topic_position(&self.metadata.topics, topic) {
            None => {},
            Some(k) => {
                proof {
                    lemma_find_topic(self.metadata.topics@, topic@);
                }
                let ghost before = self.metadata.topics@;
                let mut t = self.metadata.topics.remove(k);
                let mut parts: Vec<PartitionMeta> = Vec::new();
                std::mem::swap(&mut parts, &mut t.partitions);
                let ghost old_parts = parts@;
                let mut updated: Vec<PartitionMeta> = Vec::new();
                let n = parts.len();
                let mut i: usize = 0;
                assert(old_parts.skip(0) =~= old_parts);
                while parts.len() > 0
                    invariant
                        n == old_parts.len(),
                        i + parts@.len() == n,
                        parts@ == old_parts.skip(i as int),
                        updated@ == old_parts.take(i as int).map_values(
                            |p: PartitionMeta| with_watermarks(p, self.watermarks@),
                        ),
                    decreases parts.len(),
                {
                    let mut p = parts.remove(0);
                    assert(old_parts.skip(i as int).drop_first() =~= old_parts.skip(i + 1));
                    match watermark_for(&self.watermarks, p.id) {
                        Some((_, low, high)) => {
                            p.low_watermark = Some(low);
                            p.high_watermark = Some(high);
                        },
                        None => {},
                    }
                    updated.push(p);
                    assert(updated@ =~= old_parts.take(i + 1).map_values(
                        |p: PartitionMeta| with_watermarks(p, self.watermarks@),
                    ));
                    i = i + 1;
                }
                assert(old_parts.take(n as int) =~= old_parts);
                t.partitions = updated;
                let ghost tv = t;
                self.metadata.topics.insert(k, t);
                proof {
                    assert(self.metadata.topics@ =~= before.update(k as int, tv));
                    assert(self.watermarks@ == rows@);
                }
            },
        }
    }

    /// Opens the cluster form, empty, for a new cluster.
    pub fn open_new_cluster_form(&mut self)
        ensures
            final(self)@ == old(self)@.form_opened(empty_form(), None),
    {
        self.cluster_form = ClusterForm::new();
        self.cluster_form_edit_index = None;
        self.navigate_to(View::ClusterForm);
        self.input_mode = InputMode::Editing;
    }

    /// Opens the cluster form filled in from profile `idx`, for editing it.
    pub fn open_edit_cluster_form(&mut self, idx: usize)
        requires
            idx < old(self)@.profiles.len(),
        ensures
            final(self)@ == old(self)@.form_opened(
                form_of(old(self)@.profiles[idx as int]),
                Some(idx),
            ),
    {
        self.cluster_form = ClusterForm::from_config(&self.profile_manager.profiles[idx]);
        self.cluster_form_edit_index = Some(idx);
        self.navigate_to(View::ClusterForm);
        self.input_mode = InputMode::Editing;
    }

    /// The connection test of the form's cluster finished, with the cluster's
    /// metadata or the error: the cluster is stored either way (in place of
    /// the edited profile, or appended), the form closes and the status
    /// reports the outcome.
    pub fn on_form_tested(&mut self, outcome: Result<CachedMetadata, String>)
        requires
            old(self)@.cluster_form.auth_index < AUTH_MECHANISM_COUNT,
            old(self)@.cluster_form_edit_index matches Some(i) ==> i < old(self)@.profiles.len(),
        ensures
            profile_stored(
                old(self)@.profiles,
                final(self)@.profiles,
                old(self)@.cluster_form,
                old(self)@.cluster_form_edit_index,
            ),
            final(self)@ == old(self)@.form_saved(final(self)@.profiles).with_status(
                match outcome {
                    Ok(m) => saved_status(old(self)@.cluster_form.name, m),
                    Err(e) => saved_untested_status(old(self)@.cluster_form.name, e@),
                },
            ),
    {
        let config = self.cluster_form.to_cluster_config();
        let msg = match &outcome {
            Ok(m) => {
                let mut s = owned("✓ '");
                push_str(&mut s, self.cluster_form.name.as_str());
                push_str(&mut s, "' saved — ");
                push_decimal(&mut s, m.brokers.len() as u64);
                push_str(&mut s, " broker(s), ");
                push_decimal(&mut s, user_topics(&m.topics) as u64);
                push_str(&mut s, " topics");
                s
            },
            Err(e) => {
                let mut s = owned("Saved '");
                push_str(&mut s, self.cluster_form.name.as_str());
                push_str(&mut s, "' (connection test: ");
                push_str(&mut s, e.as_str());
                push_str(&mut s, ")");
                s
            },
        };
        match self.cluster_form_edit_index {
            Some(i) => {
                self.profile_manager.profiles[i] = config;
            },
            None => {
                self.profile_manager.profiles.push(config);
            },
        }
        self.input_mode = InputMode::Normal;
        self.navigate_back();
        self.set_status(msg);
    }

    /// Fetching the watermarks of the topic just opened failed.
    pub fn on_watermarks_failed(&mut self, error: &str)
        ensures
            final(self)@ == old(self)@.with_status("Watermark fetch failed: "@ + error@),
    {
        self.set_status(prefixed("Watermark fetch failed: ", error));
    }

    /// Refreshed watermarks of the selected topic arrived.
    pub fn on_offsets_refreshed(&mut self, rows: Vec<(i32, i64, i64)>)
        ensures
            final(self)@ == (AppModel { watermarks: rows@, ..old(self)@ }).with_status(
                "Offsets refreshed"@,
            ),
    {
        self.watermarks = rows;
        self.set_status(owned("Offsets refreshed"));
    }

    /// Saving the profile list after a deletion finished: on success the cursor
    /// moves up one row, on failure the error is shown.
    pub fn finish_delete(&mut self, error: Option<&str>)
        ensures
            error is None ==> final(self)@ == (AppModel {
                list_cursor: if old(self).list_cursor > 0 {
                    (old(self).list_cursor - 1) as usize
                } else {
                    0
                },
                ..old(self)@
            }),
            error matches Some(e) ==> final(self)@ == old(self)@.with_error(
                "Failed to delete: "@ + e@,
            ),
    {
        match error {
            None => {
                self.list_cursor = if self.list_cursor > 0 {
                    self.list_cursor - 1
                } else {
                    0
                };
            },
            Some(e) => self.set_error(prefixed("Failed to delete: ", e)),
        }
    }
}

/// Going to a view and then back restores the view and the back stack, with
/// the cursor and scroll reset.
pub proof fn lemma_navigate_round_trip(m: AppModel, v: View)
    ensures
        m.navigated_to(v).navigated_back() == (AppModel { list_cursor: 0, scroll_offset: 0, ..m }),
{
    assert(m.view_stack.push(m.current_view).drop_last() =~= m.view_stack);
}

} // verus!
