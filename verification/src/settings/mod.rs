//! Application settings and their persistence.

pub mod store;

use crate::engine::try_get_snapshot_metadata;
use crate::error::SwarmyTauriError;
use crate::laws::lemma_snapshot_stats_unique;
use crate::plan::{scope, QueryPlanView};
use crate::snapshot::{is_snapshot_stats_of, total_size, SnapshotProbe};
use crate::snapshot_stats::SnapshotStats;
use store::{SettingsStore, StoredValue, StoredValueView};
use vstd::prelude::*;

verus! {

/// Name of the file that holds the settings document.
pub const SETTINGS_FILE: &'static str = "settings.json";

/// Key of the flag that switches parallel scans off.
pub const KEY_DISABLE_PARALLEL_SCANS: &'static str = "disable_parallel_scans";

/// Key of the replay directory.
pub const KEY_REPLAY_PATH: &'static str = "replay_path";

/// The user's configuration and the last known state of the snapshot.
#[derive(Debug, PartialEq, Eq)]
pub struct AppSettings {
    pub disable_parallel_scans: bool,
    pub replay_path: String,
    pub arrow_ipc_stats: SnapshotStats,
}

/// Mathematical content of an `AppSettings`.
pub struct AppSettingsView {
    pub disable_parallel_scans: bool,
    pub replay_path: Seq<char>,
    pub arrow_ipc_stats: SnapshotStats,
}

impl View for AppSettings {
    type V = AppSettingsView;

    open spec fn view(&self) -> AppSettingsView {
        AppSettingsView {
            disable_parallel_scans: self.disable_parallel_scans,
            replay_path: self.replay_path@,
            arrow_ipc_stats: self.arrow_ipc_stats,
        }
    }
}

impl Clone for AppSettings {
    fn clone(&self) -> (r: Self)
        ensures
            r@ == self@,
    {
        AppSettings {
            disable_parallel_scans: self.disable_parallel_scans,
            replay_path: self.replay_path.clone(),
            arrow_ipc_stats: self.arrow_ipc_stats,
        }
    }
}

impl Default for AppSettings {
    fn default() -> (s: Self)
        ensures
            s@ == (AppSettingsView {
                disable_parallel_scans: false,
                replay_path: Seq::<char>::empty(),
                arrow_ipc_stats: SnapshotStats::spec_default(),
            }),
    {
        AppSettings {
            disable_parallel_scans: false,
            replay_path: String::new(),
            arrow_ipc_stats: SnapshotStats::default(),
        }
    }
}

pub open spec fn flag_key() -> Seq<char> {
    "disable_parallel_scans"@
}

pub open spec fn path_key() -> Seq<char> {
    "replay_path"@
}

/// The flag that a stored value stands for: the boolean itself, and `false`
/// for a key that is absent or holds anything but a boolean.
pub open spec fn flag_of(stored: Option<StoredValueView>) -> bool {
    match stored {
        Some(StoredValueView::Bool(b)) => b,
        _ => false,
    }
}

/// The path that a stored value stands for: the text itself, and the empty
/// path for a key that is absent or holds anything but a text.
pub open spec fn path_of(stored: Option<StoredValueView>) -> Seq<char> {
    match stored {
        Some(StoredValueView::Text(t)) => t,
        _ => Seq::<char>::empty(),
    }
}

/// What a document holds under a key.
pub open spec fn stored_under(
    doc: Map<Seq<char>, StoredValueView>,
    key: Seq<char>,
) -> Option<StoredValueView> {
    if doc.dom().contains(key) {
        Some(doc[key])
    } else {
        None
    }
}

/// The flag that a document gives.
pub open spec fn stored_flag(doc: Map<Seq<char>, StoredValueView>) -> bool {
    flag_of(stored_under(doc, flag_key()))
}

/// The replay path that a document gives.
pub open spec fn stored_path(doc: Map<Seq<char>, StoredValueView>) -> Seq<char> {
    path_of(stored_under(doc, path_key()))
}

/// The document after both settings keys were written, the flag first.
pub open spec fn saved(
    doc: Map<Seq<char>, StoredValueView>,
    disable_parallel_scans: bool,
    replay_path: Seq<char>,
) -> Map<Seq<char>, StoredValueView> {
    doc.insert(flag_key(), StoredValueView::Bool(disable_parallel_scans)).insert(
        path_key(),
        StoredValueView::Text(replay_path),
    )
}

/// The view of a value handed out by the store.
pub open spec fn stored_view(stored: Option<&StoredValue>) -> Option<StoredValueView> {
    match stored {
        Some(v) => Some(v@),
        None => None,
    }
}

/// Reads the flag from what the store holds under its key.
pub fn read_flag(stored: Option<&StoredValue>) -> (flag: bool)
    ensures
        flag == flag_of(stored_view(stored)),
{
    match stored {
        Some(StoredValue::Bool(b)) => *b,
        _ => false,
    }
}

/// Reads the replay path from what the store holds under its key.
pub fn read_path(stored: Option<&StoredValue>) -> (path: String)
    ensures
        path@ == path_of(stored_view(stored)),
{
    match stored {
        Some(StoredValue::Text(t)) => t.clone(),
        _ => String::new(),
    }
}

/// The replay path of a settings document, for whoever has to look at the
/// directory before the settings are loaded.
pub fn stored_replay_path(store: &SettingsStore) -> (path: String)
    ensures
        path@ == stored_path(store@),
{
    read_path(store.get(KEY_REPLAY_PATH))
}

/// The statistics kept in the settings for what was found of the snapshot:
/// those of the snapshot where they can be had, the default ones where the
/// snapshot subdirectory is not there (`None`) or the query fails.
pub open spec fn is_cached_stats_of(stats: SnapshotStats, snapshot: Option<SnapshotProbe>) -> bool {
    match snapshot {
        None => stats == SnapshotStats::spec_default(),
        Some(probe) => {
            let reached = scope(probe.records(), QueryPlanView::whole_snapshot());
            if probe.failure() is Some {
                stats == SnapshotStats::spec_default()
            } else {
                is_snapshot_stats_of(
                    stats,
                    total_size(probe.entry_sizes()),
                    probe.date_modified(),
                    reached,
                )
            }
        },
    }
}

/// `settings` is what loading gives for a document and what was found of
/// the snapshot.
pub open spec fn is_loaded_from(
    settings: AppSettingsView,
    doc: Map<Seq<char>, StoredValueView>,
    snapshot: Option<SnapshotProbe>,
) -> bool {
    &&& settings.disable_parallel_scans == stored_flag(doc)
    &&& settings.replay_path == stored_path(doc)
    &&& is_cached_stats_of(settings.arrow_ipc_stats, snapshot)
}

/// The statistics to keep for the result of a snapshot query: the default
/// ones in place of a failure.
pub fn stats_or_default(result: Result<SnapshotStats, SwarmyTauriError>) -> (stats: SnapshotStats)
    ensures
        stats == (match result {
            Ok(s) => s,
            Err(_) => SnapshotStats::spec_default(),
        }),
{
    match result {
        Ok(s) => s,
        Err(_) => SnapshotStats::default(),
    }
}

/// Loads the settings. Each field is read by itself, with its default where
/// the key is absent or holds a value of another shape, so that one
/// malformed field never fails the load. `snapshot` is what was found below
/// the stored replay path, `None` where there is no snapshot subdirectory.
pub fn load_app_settings_from_store(
    store: &SettingsStore,
    snapshot: Option<&SnapshotProbe>,
) -> (settings: AppSettings)
    ensures
        is_loaded_from(
            settings@,
            store@,
            match snapshot {
                Some(p) => Some(*p),
                None => None,
            },
        ),
{
    let disable_parallel_scans = read_flag(store.get(KEY_DISABLE_PARALLEL_SCANS));
    let replay_path = read_path(store.get(KEY_REPLAY_PATH));
    let arrow_ipc_stats = match snapshot {
        Some(probe) => stats_or_default(try_get_snapshot_metadata(probe)),
        None => SnapshotStats::default(),
    };
    AppSettings { disable_parallel_scans, replay_path, arrow_ipc_stats }
}

/// Writes the flag under its key.
pub fn write_flag(store: &mut SettingsStore, disable_parallel_scans: bool)
    ensures
        final(store)@ == old(store)@.insert(
            flag_key(),
            StoredValueView::Bool(disable_parallel_scans),
        ),
{
    store.set(KEY_DISABLE_PARALLEL_SCANS, StoredValue::Bool(disable_parallel_scans));
}

/// Writes the replay path under its key.
pub fn write_path(store: &mut SettingsStore, replay_path: &str)
    ensures
        final(store)@ == old(store)@.insert(path_key(), StoredValueView::Text(replay_path@)),
{
    store.set(KEY_REPLAY_PATH, StoredValue::Text(replay_path.to_owned()));
}

/// Saves the two settings fields, each as a key of its own: first the flag,
/// then the path. The two writes are not one transaction.
pub fn save_app_settings(store: &mut SettingsStore, settings: &AppSettings)
    ensures
        final(store)@ == saved(
            old(store)@,
            settings.disable_parallel_scans,
            settings.replay_path@,
        ),
{
    write_flag(store, settings.disable_parallel_scans);
    write_path(store, settings.replay_path.as_str());
}

/// The two settings keys are different keys.
pub proof fn lemma_keys_differ()
    ensures
        flag_key() != path_key(),
{
    reveal_strlit("disable_parallel_scans");
    reveal_strlit("replay_path");
    assert(flag_key().len() == 22);
    assert(path_key().len() == 11);
}

/// Saving and then loading gives back the flag and the path that were
/// saved, whatever the document held before.
pub proof fn lemma_save_then_load(
    doc: Map<Seq<char>, StoredValueView>,
    disable_parallel_scans: bool,
    replay_path: Seq<char>,
)
    ensures
        stored_flag(saved(doc, disable_parallel_scans, replay_path)) == disable_parallel_scans,
        stored_path(saved(doc, disable_parallel_scans, replay_path)) == replay_path,
{
    lemma_keys_differ();
}

/// Between the two writes of a save the document holds the new flag beside
/// the old path.
pub proof fn lemma_save_is_not_atomic(
    doc: Map<Seq<char>, StoredValueView>,
    disable_parallel_scans: bool,
)
    ensures
        stored_flag(doc.insert(flag_key(), StoredValueView::Bool(disable_parallel_scans)))
            == disable_parallel_scans,
        stored_path(doc.insert(flag_key(), StoredValueView::Bool(disable_parallel_scans)))
            == stored_path(doc),
{
    lemma_keys_differ();
}

/// Writing a key that is not a settings key changes neither setting.
pub proof fn lemma_other_keys_do_not_matter(
    doc: Map<Seq<char>, StoredValueView>,
    key: Seq<char>,
    value: StoredValueView,
)
    requires
        key != flag_key(),
        key != path_key(),
    ensures
        stored_flag(doc.insert(key, value)) == stored_flag(doc),
        stored_path(doc.insert(key, value)) == stored_path(doc),
{
}

/// Loading twice from one document, with the same found of the snapshot,
/// gives the same settings, field for field.
pub proof fn lemma_load_is_repeatable(
    first: AppSettingsView,
    second: AppSettingsView,
    doc: Map<Seq<char>, StoredValueView>,
    snapshot: Option<SnapshotProbe>,
)
    requires
        is_loaded_from(first, doc, snapshot),
        is_loaded_from(second, doc, snapshot),
    ensures
        first == second,
{
    if let Some(probe) = snapshot {
        let reached = scope(probe.records(), QueryPlanView::whole_snapshot());
        if !(probe.failure() is Some) {
            lemma_snapshot_stats_unique(
                first.arrow_ipc_stats,
                second.arrow_ipc_stats,
                total_size(probe.entry_sizes()),
                probe.date_modified(),
                reached,
            );
        }
    }
}

/// One write of a settings key.
pub enum SettingsWrite {
    Flag(bool),
    Path(Seq<char>),
}

/// The document after one write.
pub open spec fn after_write(
    doc: Map<Seq<char>, StoredValueView>,
    write: SettingsWrite,
) -> Map<Seq<char>, StoredValueView> {
    match write {
        SettingsWrite::Flag(flag) => doc.insert(flag_key(), StoredValueView::Bool(flag)),
        SettingsWrite::Path(path) => doc.insert(path_key(), StoredValueView::Text(path)),
    }
}

/// The document after a list of writes, in the order in which they reach
/// the store.
pub open spec fn after_writes(
    doc: Map<Seq<char>, StoredValueView>,
    writes: Seq<SettingsWrite>,
) -> Map<Seq<char>, StoredValueView>
    decreases writes.len(),
{
    if writes.len() == 0 {
        doc
    } else {
        after_write(after_writes(doc, writes.drop_last()), writes.last())
    }
}

/// The flag of the last write of the flag among a list of writes.
pub open spec fn last_flag_written(writes: Seq<SettingsWrite>) -> Option<bool>
    decreases writes.len(),
{
    if writes.len() == 0 {
        None
    } else {
        match writes.last() {
            SettingsWrite::Flag(flag) => Some(flag),
            SettingsWrite::Path(_) => last_flag_written(writes.drop_last()),
        }
    }
}

/// The path of the last write of the path among a list of writes.
pub open spec fn last_path_written(writes: Seq<SettingsWrite>) -> Option<Seq<char>>
    decreases writes.len(),
{
    if writes.len() == 0 {
        None
    } else {
        match writes.last() {
            SettingsWrite::Path(path) => Some(path),
            SettingsWrite::Flag(_) => last_path_written(writes.drop_last()),
        }
    }
}

/// The last writer wins, key by key: however the writes of several saves
/// interleave, the document ends with the flag of the last write of the flag
/// and the path of the last write of the path, which need not come from the
/// same save.
pub proof fn lemma_last_writer_wins(
    doc: Map<Seq<char>, StoredValueView>,
    writes: Seq<SettingsWrite>,
)
    ensures
        stored_flag(after_writes(doc, writes)) == (match last_flag_written(writes) {
            Some(flag) => flag,
            None => stored_flag(doc),
        }),
        stored_path(after_writes(doc, writes)) == (match last_path_written(writes) {
            Some(path) => path,
            None => stored_path(doc),
        }),
    decreases writes.len(),
{
    lemma_keys_differ();
    if writes.len() > 0 {
        lemma_last_writer_wins(doc, writes.drop_last());
    }
}

/// A save is its two writes, the flag first.
pub proof fn lemma_save_is_two_writes(
    doc: Map<Seq<char>, StoredValueView>,
    disable_parallel_scans: bool,
    replay_path: Seq<char>,
)
    ensures
        saved(doc, disable_parallel_scans, replay_path) == after_writes(
            doc,
            seq![SettingsWrite::Flag(disable_parallel_scans), SettingsWrite::Path(replay_path)],
        ),
{
    let writes = seq![
        SettingsWrite::Flag(disable_parallel_scans),
        SettingsWrite::Path(replay_path),
    ];
    let first = seq![SettingsWrite::Flag(disable_parallel_scans)];
    assert(writes.drop_last() =~= first);
    assert(first.drop_last() =~= Seq::<SettingsWrite>::empty());
    assert(after_writes(doc, Seq::<SettingsWrite>::empty()) == doc);
    assert(after_writes(doc, first) == after_write(doc, SettingsWrite::Flag(disable_parallel_scans)));
}

} // verus!
