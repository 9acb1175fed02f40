//! The report as a list of keys with their values.
//!
//! A field that is absent has no key: nothing stands in for it. The keys
//! come in a fixed order.

use vstd::prelude::*;
use crate::report::{
    entry_views, StatsReport, StatsReportView, TrackEntry, TrackEntryView,
};

verus! {

/// The value under a key of a track entry.
#[derive(Debug, Clone, PartialEq, Eq)]
pub enum Value {
    Integer(u64),
    Text(String),
}

/// The mathematical content of a [`Value`].
pub enum ValueView {
    Integer(nat),
    Text(Seq<char>),
}

impl View for Value {
    type V = ValueView;

    open spec fn view(&self) -> ValueView {
        match *self {
            Value::Integer(n) => ValueView::Integer(n as nat),
            Value::Text(text) => ValueView::Text(text@),
        }
    }
}

/// One key of a track entry with its value.
#[derive(Debug, Clone, PartialEq, Eq)]
pub struct Field {
    pub key: String,
    pub value: Value,
}

impl View for Field {
    type V = (Seq<char>, ValueView);

    open spec fn view(&self) -> (Seq<char>, ValueView) {
        (self.key@, self.value@)
    }
}

/// The contents of a list of fields, in order.
pub open spec fn field_views(fields: Seq<Field>) -> Seq<(Seq<char>, ValueView)> {
    fields.map_values(|f: Field| f@)
}

/// The contents of a list of field lists, in order.
pub open spec fn record_views(records: Seq<Vec<Field>>) -> Seq<Seq<(Seq<char>, ValueView)>> {
    records.map_values(|r: Vec<Field>| field_views(r@))
}

/// The value under a key of the report.
#[derive(Debug, Clone, PartialEq, Eq)]
pub enum ReportValue {
    Integer(u128),
    Text(String),
    /// The fields of each track, one list for each, in the report's order.
    Tracks(Vec<Vec<Field>>),
}

/// The mathematical content of a [`ReportValue`].
pub enum ReportValueView {
    Integer(nat),
    Text(Seq<char>),
    Tracks(Seq<Seq<(Seq<char>, ValueView)>>),
}

impl View for ReportValue {
    type V = ReportValueView;

    open spec fn view(&self) -> ReportValueView {
        match *self {
            ReportValue::Integer(n) => ReportValueView::Integer(n as nat),
            ReportValue::Text(text) => ReportValueView::Text(text@),
            ReportValue::Tracks(records) => ReportValueView::Tracks(record_views(records@)),
        }
    }
}

/// One key of the report with its value.
#[derive(Debug, Clone, PartialEq, Eq)]
pub struct ReportField {
    pub key: String,
    pub value: ReportValue,
}

impl View for ReportField {
    type V = (Seq<char>, ReportValueView);

    open spec fn view(&self) -> (Seq<char>, ReportValueView) {
        (self.key@, self.value@)
    }
}

/// The contents of a list of report fields, in order.
pub open spec fn report_field_views(fields: Seq<ReportField>) -> Seq<(Seq<char>, ReportValueView)> {
    fields.map_values(|f: ReportField| f@)
}

/// A count under its key where there is one, nothing where there is none.
pub open spec fn count_field(key: Seq<char>, count: Option<u32>) -> Seq<(Seq<char>, ValueView)> {
    match count {
        Some(n) => seq![(key, ValueView::Integer(n as nat))],
        None => Seq::empty(),
    }
}

/// A number under its key where there is one, nothing where there is none.
pub open spec fn number_field(key: Seq<char>, number: Option<u64>) -> Seq<(Seq<char>, ValueView)> {
    match number {
        Some(n) => seq![(key, ValueView::Integer(n as nat))],
        None => Seq::empty(),
    }
}

/// A text under its key where there is one, nothing where there is none.
pub open spec fn text_field(key: Seq<char>, text: Option<Seq<char>>) -> Seq<(Seq<char>, ValueView)> {
    match text {
        Some(t) => seq![(key, ValueView::Text(t))],
        None => Seq::empty(),
    }
}

/// The keys of a track entry with their values, in order: the six that are
/// always there, then each optional one that is present.
pub open spec fn entry_fields(entry: TrackEntryView) -> Seq<(Seq<char>, ValueView)> {
    seq![
        ("id"@, ValueView::Integer(entry.id as nat)),
        ("title"@, ValueView::Text(entry.title)),
        ("permalink_url"@, ValueView::Text(entry.permalink_url)),
        ("created_at"@, ValueView::Text(entry.created_at)),
        ("likes_count"@, ValueView::Integer(entry.likes_count as nat)),
        ("reposts_count"@, ValueView::Integer(entry.reposts_count as nat)),
    ] + count_field("playback_count"@, entry.playback_count) + count_field(
        "comment_count"@,
        entry.comment_count,
    ) + count_field("download_count"@, entry.download_count) + text_field(
        "description"@,
        entry.description,
    ) + text_field("genre"@, entry.genre) + text_field("artwork_url"@, entry.artwork_url)
        + number_field("duration_seconds"@, entry.duration_seconds) + text_field(
        "duration_formatted"@,
        entry.duration_formatted,
    )
}

/// A count of the report under its key where there is one.
pub open spec fn report_count_field(key: Seq<char>, count: Option<u32>) -> Seq<
    (Seq<char>, ReportValueView),
> {
    match count {
        Some(n) => seq![(key, ReportValueView::Integer(n as nat))],
        None => Seq::empty(),
    }
}

/// A text of the report under its key where there is one.
pub open spec fn report_text_field(key: Seq<char>, text: Option<Seq<char>>) -> Seq<
    (Seq<char>, ReportValueView),
> {
    match text {
        Some(t) => seq![(key, ReportValueView::Text(t))],
        None => Seq::empty(),
    }
}

/// The keys of the report with their values, in order: the profile's
/// fields that are always there, each optional one that is present, the
/// recent tracks, and the three totals.
pub open spec fn report_fields(report: StatsReportView) -> Seq<(Seq<char>, ReportValueView)> {
    seq![
        ("id"@, ReportValueView::Integer(report.id as nat)),
        ("username"@, ReportValueView::Text(report.username)),
        ("followers_count"@, ReportValueView::Integer(report.followers_count as nat)),
        ("followings_count"@, ReportValueView::Integer(report.followings_count as nat)),
        ("track_count"@, ReportValueView::Integer(report.track_count as nat)),
        ("profile_url"@, ReportValueView::Text(report.profile_url)),
        ("public_favorites_count"@, ReportValueView::Integer(report.public_favorites_count as nat)),
    ] + report_count_field("reposts_count"@, report.reposts_count) + report_count_field(
        "playlist_count"@,
        report.playlist_count,
    ) + report_text_field("avatar_url"@, report.avatar_url) + report_text_field(
        "description"@,
        report.description,
    ) + report_text_field("city"@, report.city) + report_text_field("country"@, report.country)
        + seq![
        (
            "recent_tracks"@,
            ReportValueView::Tracks(
                report.recent_tracks.map_values(|e: TrackEntryView| entry_fields(e)),
            ),
        ),
        ("total_recent_likes"@, ReportValueView::Integer(report.total_recent_likes)),
        ("total_recent_reposts"@, ReportValueView::Integer(report.total_recent_reposts)),
        ("total_recent_plays"@, ReportValueView::Integer(report.total_recent_plays)),
    ]
}

/// Appends a number under `key`.
fn push_number(fields: &mut Vec<Field>, key: &str, number: u64)
    ensures
        field_views(final(fields)@) == field_views(old(fields)@).push(
            (key@, ValueView::Integer(number as nat)),
        ),
{
    fields.push(Field { key: String::from_str(key), value: Value::Integer(number) });
    assert(field_views(fields@) =~= field_views(old(fields)@).push(
        (key@, ValueView::Integer(number as nat)),
    ));
}

/// Appends a text under `key`.
fn push_text(fields: &mut Vec<Field>, key: &str, text: &String)
    ensures
        field_views(final(fields)@) == field_views(old(fields)@).push(
            (key@, ValueView::Text(text@)),
        ),
{
    fields.push(Field { key: String::from_str(key), value: Value::Text(text.clone()) });
    assert(field_views(fields@) =~= field_views(old(fields)@).push((key@, ValueView::Text(text@))));
}

/// Appends a count under `key` where there is one.
fn push_count(fields: &mut Vec<Field>, key: &str, count: Option<u32>)
    ensures
        field_views(final(fields)@) == field_views(old(fields)@) + count_field(key@, count),
{
    match count {
        Some(n) => {
            push_number(fields, key, n as u64);
            assert(field_views(fields@) =~= field_views(old(fields)@) + count_field(key@, count));
        },
        None => {
            assert(field_views(fields@) =~= field_views(old(fields)@) + count_field(key@, count));
        },
    }
}

/// Appends a number under `key` where there is one.
fn push_optional_number(fields: &mut Vec<Field>, key: &str, number: Option<u64>)
    ensures
        field_views(final(fields)@) == field_views(old(fields)@) + number_field(key@, number),
{
    match number {
        Some(n) => {
            push_number(fields, key, n);
            assert(field_views(fields@) =~= field_views(old(fields)@) + number_field(key@, number));
        },
        None => {
            assert(field_views(fields@) =~= field_views(old(fields)@) + number_field(key@, number));
        },
    }
}

/// Appends a text under `key` where there is one.
fn push_optional_text(fields: &mut Vec<Field>, key: &str, text: &Option<String>)
    ensures
        field_views(final(fields)@) == field_views(old(fields)@) + text_field(
            key@,
            crate::model::optional_text(*text),
        ),
{
    match text {
        Some(t) => {
            push_text(fields, key, t);
            assert(field_views(fields@) =~= field_views(old(fields)@) + text_field(
                key@,
                crate::model::optional_text(*text),
            ));
        },
        None => {
            assert(field_views(fields@) =~= field_views(old(fields)@) + text_field(
                key@,
                crate::model::optional_text(*text),
            ));
        },
    }
}

impl TrackEntry {
    /// The keys of this entry with their values, in order. A field that is
    /// absent has no key.
    pub fn fields(&self) -> (fields: Vec<Field>)
        ensures
            field_views(fields@) == entry_fields(self@),
    {
        let mut fields: Vec<Field> = Vec::new();
        assert(field_views(fields@) =~= Seq::empty());
        push_number(&mut fields, "id", self.id);
        push_text(&mut fields, "title", &self.title);
        push_text(&mut fields, "permalink_url", &self.permalink_url);
        push_text(&mut fields, "created_at", &self.created_at);
        push_number(&mut fields, "likes_count", self.likes_count as u64);
        push_number(&mut fields, "reposts_count", self.reposts_count as u64);
        assert(field_views(fields@) =~= seq![
            ("id"@, ValueView::Integer(self@.id as nat)),
            ("title"@, ValueView::Text(self@.title)),
            ("permalink_url"@, ValueView::Text(self@.permalink_url)),
            ("created_at"@, ValueView::Text(self@.created_at)),
            ("likes_count"@, ValueView::Integer(self@.likes_count as nat)),
            ("reposts_count"@, ValueView::Integer(self@.reposts_count as nat)),
        ]);
        push_count(&mut fields, "playback_count", self.playback_count);
        push_count(&mut fields, "comment_count", self.comment_count);
        push_count(&mut fields, "download_count", self.download_count);
        push_optional_text(&mut fields, "description", &self.description);
        push_optional_text(&mut fields, "genre", &self.genre);
        push_optional_text(&mut fields, "artwork_url", &self.artwork_url);
        push_optional_number(&mut fields, "duration_seconds", self.duration_seconds);
        push_optional_text(&mut fields, "duration_formatted", &self.duration_formatted);
        fields
    }
}

/// Appends a number of the report under `key`.
fn push_report_number(fields: &mut Vec<ReportField>, key: &str, number: u128)
    ensures
        report_field_views(final(fields)@) == report_field_views(old(fields)@).push(
            (key@, ReportValueView::Integer(number as nat)),
        ),
{
    fields.push(ReportField { key: String::from_str(key), value: ReportValue::Integer(number) });
    assert(report_field_views(fields@) =~= report_field_views(old(fields)@).push(
        (key@, ReportValueView::Integer(number as nat)),
    ));
}

/// Appends a text of the report under `key`.
fn push_report_text(fields: &mut Vec<ReportField>, key: &str, text: &String)
    ensures
        report_field_views(final(fields)@) == report_field_views(old(fields)@).push(
            (key@, ReportValueView::Text(text@)),
        ),
{
    fields.push(ReportField { key: String::from_str(key), value: ReportValue::Text(text.clone()) });
    assert(report_field_views(fields@) =~= report_field_views(old(fields)@).push(
        (key@, ReportValueView::Text(text@)),
    ));
}

/// Appends a count of the report under `key` where there is one.
fn push_report_count(fields: &mut Vec<ReportField>, key: &str, count: Option<u32>)
    ensures
        report_field_views(final(fields)@) == report_field_views(old(fields)@)
            + report_count_field(key@, count),
{
    match count {
        Some(n) => {
            push_report_number(fields, key, n as u128);
            assert(report_field_views(fields@) =~= report_field_views(old(fields)@)
                + report_count_field(key@, count));
        },
        None => {
            assert(report_field_views(fields@) =~= report_field_views(old(fields)@)
                + report_count_field(key@, count));
        },
    }
}

/// Appends a text of the report under `key` where there is one.
fn push_report_optional_text(fields: &mut Vec<ReportField>, key: &str, text: &Option<String>)
    ensures
        report_field_views(final(fields)@) == report_field_views(old(fields)@)
            + report_text_field(key@, crate::model::optional_text(*text)),
{
    match text {
        Some(t) => {
            push_report_text(fields, key, t);
            assert(report_field_views(fields@) =~= report_field_views(old(fields)@)
                + report_text_field(key@, crate::model::optional_text(*text)));
        },
        None => {
            assert(report_field_views(fields@) =~= report_field_views(old(fields)@)
                + report_text_field(key@, crate::model::optional_text(*text)));
        },
    }
}

/// The field lists of a list of entries, one for each, in order.
fn track_records(entries: &Vec<TrackEntry>) -> (records: Vec<Vec<Field>>)
    ensures
        record_views(records@) == entry_views(entries@).map_values(
            |e: TrackEntryView| entry_fields(e),
        ),
{
    let mut records: Vec<Vec<Field>> = Vec::new();
    let mut i: usize = 0;
    while i < entries.len()
        invariant
            i <= entries.len(),
            records@.len() == i,
            forall|j: int|
                0 <= j < i ==> field_views((#[trigger] records@[j])@) == entry_fields(
                    entries@[j]@,
                ),
        decreases entries.len() - i,
    {
        records.push(entries[i].fields());
        i = i + 1;
    }
    assert(record_views(records@) =~= entry_views(entries@).map_values(
        |e: TrackEntryView| entry_fields(e),
    ));
    records
}

impl StatsReport {
    /// The keys of this report with their values, in order. A field that is
    /// absent has no key.
    pub fn fields(&self) -> (fields: Vec<ReportField>)
        ensures
            report_field_views(fields@) == report_fields(self@),
    {
        let mut fields: Vec<ReportField> = Vec::new();
        assert(report_field_views(fields@) =~= Seq::empty());
        push_report_number(&mut fields, "id", self.id as u128);
        push_report_text(&mut fields, "username", &self.username);
        push_report_number(&mut fields, "followers_count", self.followers_count as u128);
        push_report_number(&mut fields, "followings_count", self.followings_count as u128);
        push_report_number(&mut fields, "track_count", self.track_count as u128);
        push_report_text(&mut fields, "profile_url", &self.profile_url);
        push_report_number(
            &mut fields,
            "public_favorites_count",
            self.public_favorites_count as u128,
        );
        assert(report_field_views(fields@) =~= seq![
            ("id"@, ReportValueView::Integer(self@.id as nat)),
            ("username"@, ReportValueView::Text(self@.username)),
            ("followers_count"@, ReportValueView::Integer(self@.followers_count as nat)),
            ("followings_count"@, ReportValueView::Integer(self@.followings_count as nat)),
            ("track_count"@, ReportValueView::Integer(self@.track_count as nat)),
            ("profile_url"@, ReportValueView::Text(self@.profile_url)),
            (
                "public_favorites_count"@,
                ReportValueView::Integer(self@.public_favorites_count as nat),
            ),
        ]);
        push_report_count(&mut fields, "reposts_count", self.reposts_count);
        push_report_count(&mut fields, "playlist_count", self.playlist_count);
        push_report_optional_text(&mut fields, "avatar_url", &self.avatar_url);
        push_report_optional_text(&mut fields, "description", &self.description);
        push_report_optional_text(&mut fields, "city", &self.city);
        push_report_optional_text(&mut fields, "country", &self.country);
        let ghost before = report_field_views(fields@);
        let records: Vec<Vec<Field>> = track_records(&self.recent_tracks);
        fields.push(
            ReportField { key: String::from_str("recent_tracks"), value: ReportValue::Tracks(records) },
        );
        assert(report_field_views(fields@) =~= before.push(
            (
                "recent_tracks"@,
                ReportValueView::Tracks(
                    self@.recent_tracks.map_values(|e: TrackEntryView| entry_fields(e)),
                ),
            ),
        ));
        push_report_number(&mut fields, "total_recent_likes", self.total_recent_likes);
        push_report_number(&mut fields, "total_recent_reposts", self.total_recent_reposts);
        push_report_number(&mut fields, "total_recent_plays", self.total_recent_plays);
        assert(report_field_views(fields@) =~= report_fields(self@));
        fields
    }
}

} // verus!
