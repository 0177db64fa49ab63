//! What a probe of a media file reports about it, and how a report is read.

use vstd::prelude::*;
use vstd::string::*;
use crate::error::MediaManagerError;
use crate::text::{chars_equal, decimal, push_decimal, string_of, text_of};

verus! {

/// A JSON value of `serde_json`. What it holds is `json_content` of it.
#[verifier::external_type_specification]
#[verifier::external_body]
pub struct ExJsonValue(serde_json::Value);

/// The error of `serde_json`.
#[verifier::external_type_specification]
#[verifier::external_body]
pub struct ExJsonError(serde_json::Error);

/// What a JSON value holds.
pub enum JsonContent {
    Null,
    Bool(bool),
    /// A number; with it the number itself, where it is a non-negative
    /// integer below 2^64.
    Number(Option<u64>),
    Text(Seq<char>),
    /// The items of an array, in their order.
    Array(Seq<JsonContent>),
    /// The members of an object, by their keys.
    Object(Map<Seq<char>, JsonContent>),
}

/// What the JSON value `v` of `serde_json` holds.
pub uninterp spec fn json_content(v: serde_json::Value) -> JsonContent;

/// What `bytes` hold, read as JSON text by `serde_json`: the one value
/// written there, or `None` where they are no JSON text.
pub uninterp spec fn parsed_json(bytes: Seq<u8>) -> Option<JsonContent>;

/// What an optional JSON value holds.
pub open spec fn content_of(v: Option<&serde_json::Value>) -> Option<JsonContent> {
    match v {
        Some(x) => Some(json_content(*x)),
        None => None,
    }
}

/// What each of `items` holds.
pub open spec fn contents(items: Seq<serde_json::Value>) -> Seq<JsonContent> {
    Seq::new(items.len(), |i: int| json_content(items[i]))
}

/// The member `key` of `j`, where `j` is an object that has such a member.
pub open spec fn member_of(j: JsonContent, key: Seq<char>) -> Option<JsonContent> {
    match j {
        JsonContent::Object(members) => if members.contains_key(key) {
            Some(members[key])
        } else {
            None
        },
        _ => None,
    }
}

/// The text of `j`, where `j` is a text.
pub open spec fn text_in(j: JsonContent) -> Option<Seq<char>> {
    match j {
        JsonContent::Text(s) => Some(s),
        _ => None,
    }
}

/// The number of `j`, where `j` is a non-negative integer below 2^64.
pub open spec fn number_in(j: JsonContent) -> Option<u64> {
    match j {
        JsonContent::Number(n) => n,
        _ => None,
    }
}

/// The text of the member `key` of `j`, where `j` has such a member and it
/// is a text.
pub open spec fn text_at(j: JsonContent, key: Seq<char>) -> Option<Seq<char>> {
    match member_of(j, key) {
        Some(m) => text_in(m),
        None => None,
    }
}

/// The number of the member `key` of `j`, where `j` has such a member and
/// it is a non-negative integer below 2^64.
pub open spec fn number_at(j: JsonContent, key: Seq<char>) -> Option<u64> {
    match member_of(j, key) {
        Some(m) => number_in(m),
        None => None,
    }
}

/// `serde_json::from_slice` for a `Value`: reads `bytes` as one JSON value.
/// Whether they are JSON text, and what the value then holds, depends on
/// `bytes` alone.
#[verifier::external_body]
fn parse_json(bytes: &[u8]) -> (r: Result<serde_json::Value, serde_json::Error>)
    ensures
        match r {
            Ok(v) => parsed_json(bytes@) == Some(json_content(v)),
            Err(_) => parsed_json(bytes@) is None,
        },
{
    serde_json::from_slice(bytes)
}

/// The `Display` text of a `serde_json::Error`. Nothing is claimed of it.
#[verifier::external_body]
fn json_error_text(e: &serde_json::Error) -> (r: String) {
    e.to_string()
}

/// `Value::get` with a text key: the member `key` of a JSON object, `None`
/// where `v` is no object or has no such member.
#[verifier::external_body]
fn member<'a>(v: &'a serde_json::Value, key: &str) -> (r: Option<&'a serde_json::Value>)
    ensures
        content_of(r) == member_of(json_content(*v), key@),
{
    v.get(key)
}

/// `Value::as_str`: the text of a JSON string, `None` for any other value.
#[verifier::external_body]
fn as_text(v: &serde_json::Value) -> (r: Option<String>)
    ensures
        text_of(r) == text_in(json_content(*v)),
{
    v.as_str().map(|s| s.to_string())
}

/// `Value::as_u64`: the number of a JSON number that is a non-negative
/// integer below 2^64, `None` for any other value.
#[verifier::external_body]
fn as_number(v: &serde_json::Value) -> (r: Option<u64>)
    ensures
        r == number_in(json_content(*v)),
{
    v.as_u64()
}

/// `Value::as_array`: the items of a JSON array, `None` for any other value.
#[verifier::external_body]
fn as_items(v: &serde_json::Value) -> (r: Option<&Vec<serde_json::Value>>)
    ensures
        match r {
            Some(items) => json_content(*v) == JsonContent::Array(contents(items@)),
            None => !(json_content(*v) is Array),
        },
{
    v.as_array()
}

/// One subtitle stream embedded in a media file.
#[derive(Debug, Clone)]
pub struct SubtitleStream {
    /// The stream's index in the file.
    pub index: u32,
    pub language: Option<String>,
    pub title: Option<String>,
    /// The stream's codec, such as `srt`, `ass` or `pgs`.
    pub codec: String,
}

/// What a `SubtitleStream` holds, as mathematical values.
pub struct SubtitleStreamView {
    pub index: u32,
    pub language: Option<Seq<char>>,
    pub title: Option<Seq<char>>,
    pub codec: Seq<char>,
}

impl View for SubtitleStream {
    type V = SubtitleStreamView;

    open spec fn view(&self) -> SubtitleStreamView {
        SubtitleStreamView {
            index: self.index,
            language: text_of(self.language),
            title: text_of(self.title),
            codec: self.codec@,
        }
    }
}

/// The metadata of a media file. Every part is best-effort and may be absent.
#[derive(Debug, Clone)]
pub struct MediaMetadata {
    /// The duration in seconds, rounded to a whole number and written out in
    /// decimal.
    pub duration_seconds: Option<String>,
    pub width: Option<u32>,
    pub height: Option<u32>,
    pub codec_name: Option<String>,
    pub subtitle_streams: Vec<SubtitleStream>,
}

/// One stream of a probe's report, as far as the library reads it. A part
/// is `None` where the report lacks it or holds a value of another type.
#[derive(Debug)]
pub struct ProbeStream {
    /// The kind of the stream, such as `video`, `audio` or `subtitle`.
    pub codec_type: Option<String>,
    pub index: Option<u64>,
    pub width: Option<u64>,
    pub height: Option<u64>,
    pub codec_name: Option<String>,
    /// The language tag of the stream.
    pub language: Option<String>,
    /// The title tag of the stream.
    pub title: Option<String>,
}

/// A probe's report, as far as the library reads it.
#[derive(Debug)]
pub struct ProbeReport {
    /// The duration as the report writes it: seconds, in decimal text.
    pub duration: Option<String>,
    /// The streams of the report, in its order; none where it lists none.
    pub streams: Vec<ProbeStream>,
}

/// What a `ProbeStream` holds, as mathematical values.
pub struct ProbeStreamView {
    pub codec_type: Option<Seq<char>>,
    pub index: Option<u64>,
    pub width: Option<u64>,
    pub height: Option<u64>,
    pub codec_name: Option<Seq<char>>,
    pub language: Option<Seq<char>>,
    pub title: Option<Seq<char>>,
}

impl View for ProbeStream {
    type V = ProbeStreamView;

    open spec fn view(&self) -> ProbeStreamView {
        ProbeStreamView {
            codec_type: text_of(self.codec_type),
            index: self.index,
            width: self.width,
            height: self.height,
            codec_name: text_of(self.codec_name),
            language: text_of(self.language),
            title: text_of(self.title),
        }
    }
}

/// The views of a sequence of streams.
pub open spec fn stream_views(streams: Seq<ProbeStream>) -> Seq<ProbeStreamView> {
    Seq::new(streams.len(), |i: int| streams[i]@)
}

/// What a `ProbeReport` holds, as mathematical values.
pub struct ProbeReportView {
    pub duration: Option<Seq<char>>,
    pub streams: Seq<ProbeStreamView>,
}

impl View for ProbeReport {
    type V = ProbeReportView;

    open spec fn view(&self) -> ProbeReportView {
        ProbeReportView { duration: text_of(self.duration), streams: stream_views(self.streams@) }
    }
}

/// The stream that the JSON value `j` describes: its members `codec_type`,
/// `index`, `width`, `height` and `codec_name`, and the members `language`
/// and `title` of its member `tags`, each as far as it is there and is a
/// text or a number as the part asks.
pub open spec fn stream_of(j: JsonContent) -> ProbeStreamView {
    ProbeStreamView {
        codec_type: text_at(j, "codec_type"@),
        index: number_at(j, "index"@),
        width: number_at(j, "width"@),
        height: number_at(j, "height"@),
        codec_name: text_at(j, "codec_name"@),
        language: match member_of(j, "tags"@) {
            Some(tags) => text_at(tags, "language"@),
            None => None,
        },
        title: match member_of(j, "tags"@) {
            Some(tags) => text_at(tags, "title"@),
            None => None,
        },
    }
}

/// The streams that the report `j` lists: what each item of its member
/// `streams` describes, in order; none where `j` has no such member or it
/// is no array.
pub open spec fn streams_of(j: JsonContent) -> Seq<ProbeStreamView> {
    match member_of(j, "streams"@) {
        Some(JsonContent::Array(items)) => Seq::new(items.len(), |i: int| stream_of(items[i])),
        _ => Seq::empty(),
    }
}

/// The report that the JSON value `j` holds: the text `duration` of its
/// member `format`, and its streams.
pub open spec fn report_of(j: JsonContent) -> ProbeReportView {
    ProbeReportView {
        duration: match member_of(j, "format"@) {
            Some(format) => text_at(format, "duration"@),
            None => None,
        },
        streams: streams_of(j),
    }
}

/// Whether `s` is a video stream.
pub open spec fn is_video(s: ProbeStream) -> bool {
    s.codec_type matches Some(t) && t@ == "video"@
}

/// Whether `s` is a subtitle stream.
pub open spec fn is_subtitle(s: ProbeStream) -> bool {
    s.codec_type matches Some(t) && t@ == "subtitle"@
}

/// The last video stream among `streams`, if there is one.
pub open spec fn last_video(streams: Seq<ProbeStream>) -> Option<ProbeStream>
    decreases streams.len(),
{
    if streams.len() == 0 {
        None
    } else if is_video(streams.last()) {
        Some(streams.last())
    } else {
        last_video(streams.drop_last())
    }
}

/// The low 32 bits of `n`.
pub open spec fn low32(n: u64) -> u32 {
    (n % 0x1_0000_0000) as u32
}

/// The low 32 bits of an optional number.
pub open spec fn low32_of(n: Option<u64>) -> Option<u32> {
    match n {
        Some(v) => Some(low32(v)),
        None => None,
    }
}

/// The subtitle stream that the probe's stream `s` describes: its index, or
/// 0 where it has none; its tags; its codec, or `unknown` where it names none.
pub open spec fn subtitle_of(s: ProbeStream) -> SubtitleStreamView {
    SubtitleStreamView {
        index: match s.index {
            Some(i) => low32(i),
            None => 0,
        },
        language: text_of(s.language),
        title: text_of(s.title),
        codec: match s.codec_name {
            Some(c) => c@,
            None => "unknown"@,
        },
    }
}

/// The subtitle streams among `streams`, in their order.
pub open spec fn subtitles_of(streams: Seq<ProbeStream>) -> Seq<SubtitleStreamView>
    decreases streams.len(),
{
    if streams.len() == 0 {
        Seq::empty()
    } else if is_subtitle(streams.last()) {
        subtitles_of(streams.drop_last()).push(subtitle_of(streams.last()))
    } else {
        subtitles_of(streams.drop_last())
    }
}

/// The views of a sequence of subtitle streams.
pub open spec fn subtitle_views(streams: Seq<SubtitleStream>) -> Seq<SubtitleStreamView> {
    Seq::new(streams.len(), |i: int| streams[i]@)
}

fn copy_text(s: &Option<String>) -> (r: Option<String>)
    ensures
        text_of(r) == text_of(*s),
{
    match s {
        Some(t) => Some(t.clone()),
        None => None,
    }
}

fn low32_exec(n: Option<u64>) -> (r: Option<u32>)
    ensures
        r == low32_of(n),
{
    match n {
        Some(v) => Some((v % 0x1_0000_0000) as u32),
        None => None,
    }
}

fn text_member(v: &serde_json::Value, key: &str) -> (r: Option<String>)
    ensures
        text_of(r) == text_at(json_content(*v), key@),
{
    match member(v, key) {
        Some(m) => as_text(m),
        None => None,
    }
}

fn number_member(v: &serde_json::Value, key: &str) -> (r: Option<u64>)
    ensures
        r == number_at(json_content(*v), key@),
{
    match member(v, key) {
        Some(m) => as_number(m),
        None => None,
    }
}

impl ProbeStream {
    /// Reads one stream of a report: `codec_type`, `index`, `width`,
    /// `height` and `codec_name` of the stream, `language` and `title` of
    /// its `tags`.
    fn read(v: &serde_json::Value) -> (r: ProbeStream)
        ensures
            r@ == stream_of(json_content(*v)),
    {
        let tags = member(v, "tags");
        let language = match tags {
            Some(t) => text_member(t, "language"),
            None => None,
        };
        let title = match tags {
            Some(t) => text_member(t, "title"),
            None => None,
        };
        ProbeStream {
            codec_type: text_member(v, "codec_type"),
            index: number_member(v, "index"),
            width: number_member(v, "width"),
            height: number_member(v, "height"),
            codec_name: text_member(v, "codec_name"),
            language,
            title,
        }
    }
}

impl ProbeReport {
    /// Reads the report that a probe printed as JSON: the `duration` of its
    /// `format`, and its `streams`. Fails, with the parser's words, exactly
    /// where `output` is no JSON text.
    pub fn parse(output: &[u8]) -> (r: Result<ProbeReport, MediaManagerError>)
        ensures
            match parsed_json(output@) {
                Some(j) => r matches Ok(report) && report@ == report_of(j),
                None => r matches Err(MediaManagerError::Json(_)),
            },
    {
        let json = match parse_json(output) {
            Ok(v) => v,
            Err(e) => {
                return Err(MediaManagerError::Json(json_error_text(&e)));
            },
        };
        let ghost j = json_content(json);
        let duration = match member(&json, "format") {
            Some(f) => text_member(f, "duration"),
            None => None,
        };
        let mut streams: Vec<ProbeStream> = Vec::new();
        let listed = match member(&json, "streams") {
            Some(s) => as_items(s),
            None => None,
        };
        match listed {
            Some(items) => {
                let mut i: usize = 0;
                while i < items.len()
                    invariant
                        i <= items.len(),
                        streams_of(j) == Seq::new(
                            items@.len(),
                            |k: int| stream_of(json_content(items@[k])),
                        ),
                        stream_views(streams@) == streams_of(j).subrange(0, i as int),
                    decreases items.len() - i,
                {
                    let ghost before = streams@;
                    let stream = ProbeStream::read(&items[i]);
                    streams.push(stream);
                    assert(stream_views(streams@) =~= stream_views(before).push(stream@));
                    assert(stream_views(streams@) =~= streams_of(j).subrange(0, i + 1));
                    i += 1;
                }
                assert(streams_of(j).subrange(0, items@.len() as int) =~= streams_of(j));
            },
            None => {
                assert(stream_views(streams@) =~= streams_of(j));
            },
        }
        let report = ProbeReport { duration, streams };
        assert(report@ == report_of(j));
        Ok(report)
    }
}

/// A number in decimal, or `N/A` where there is none.
pub open spec fn number_label(n: Option<u32>) -> Seq<char> {
    match n {
        Some(v) => decimal(v as nat),
        None => "N/A"@,
    }
}

fn number_label_exec(n: Option<u32>) -> (r: String)
    ensures
        r@ == number_label(n),
{
    match n {
        Some(v) => {
            let mut digits: Vec<char> = Vec::new();
            push_decimal(&mut digits, v as u64);
            assert(digits@ =~= decimal(v as nat));
            string_of(&digits)
        },
        None => String::from_str("N/A"),
    }
}

impl MediaMetadata {
    /// The text of `resolution_label`.
    pub open spec fn resolution_label_text(&self) -> Seq<char> {
        number_label(self.width) + "x"@ + number_label(self.height)
    }

    /// The resolution as shown to a person: width, `x`, height, with `N/A`
    /// for a part that is not known.
    pub fn resolution_label(&self) -> (r: String)
        ensures
            r@ == self.resolution_label_text(),
    {
        let height = number_label_exec(self.height);
        number_label_exec(self.width).concat("x").concat(height.as_str())
    }

    /// The text of `duration_label`.
    pub open spec fn duration_label_text(&self) -> Seq<char> {
        match self.duration_seconds {
            Some(d) => d@ + "s"@,
            None => "0s"@,
        }
    }

    /// The duration as shown to a person: whole seconds and `s`; `0s` where
    /// it is not known.
    pub fn duration_label(&self) -> (r: String)
        ensures
            r@ == self.duration_label_text(),
    {
        match &self.duration_seconds {
            Some(d) => d.clone().concat("s"),
            None => String::from_str("0s"),
        }
    }

    /// The text of `codec_label`.
    pub open spec fn codec_label_text(&self) -> Seq<char> {
        match self.codec_name {
            Some(c) => c@,
            None => "N/A"@,
        }
    }

    /// The codec as shown to a person; `N/A` where it is not known.
    pub fn codec_label(&self) -> (r: String)
        ensures
            r@ == self.codec_label_text(),
    {
        match &self.codec_name {
            Some(c) => c.clone(),
            None => String::from_str("N/A"),
        }
    }

    /// The metadata that the streams of a report give, with the duration
    /// `duration_seconds`: width, height and codec of the last video stream,
    /// and the subtitle streams in the report's order. Streams of no kind or
    /// of another kind are passed over.
    pub fn from_streams(duration_seconds: Option<String>, streams: &Vec<ProbeStream>) -> (r: Self)
        ensures
            r.duration_seconds == duration_seconds,
            r.width == match last_video(streams@) {
                Some(v) => low32_of(v.width),
                None => None,
            },
            r.height == match last_video(streams@) {
                Some(v) => low32_of(v.height),
                None => None,
            },
            text_of(r.codec_name) == match last_video(streams@) {
                Some(v) => text_of(v.codec_name),
                None => None,
            },
            subtitle_views(r.subtitle_streams@) == subtitles_of(streams@),
    {
        let mut width: Option<u32> = None;
        let mut height: Option<u32> = None;
        let mut codec_name: Option<String> = None;
        let mut subtitle_streams: Vec<SubtitleStream> = Vec::new();
        let mut i: usize = 0;
        assert(streams@.subrange(0, 0) =~= Seq::<ProbeStream>::empty());
        assert(subtitle_views(subtitle_streams@) =~= subtitles_of(streams@.subrange(0, 0)));
        while i < streams.len()
            invariant
                i <= streams.len(),
                width == match last_video(streams@.subrange(0, i as int)) {
                    Some(v) => low32_of(v.width),
                    None => None,
                },
                height == match last_video(streams@.subrange(0, i as int)) {
                    Some(v) => low32_of(v.height),
                    None => None,
                },
                text_of(codec_name) == match last_video(streams@.subrange(0, i as int)) {
                    Some(v) => text_of(v.codec_name),
                    None => None,
                },
                subtitle_views(subtitle_streams@) == subtitles_of(streams@.subrange(0, i as int)),
            decreases streams.len() - i,
        {
            let stream = &streams[i];
            proof {
                reveal_strlit("video");
                reveal_strlit("subtitle");
                let next = streams@.subrange(0, i + 1);
                assert(next.last() == streams@[i as int]);
                assert(next.drop_last() =~= streams@.subrange(0, i as int));
            }
            let ghost before = subtitle_streams@;
            match &stream.codec_type {
                Some(kind) => {
                    if chars_equal(kind.as_str(), "video") {
                        width = low32_exec(stream.width);
                        height = low32_exec(stream.height);
                        codec_name = copy_text(&stream.codec_name);
                        assert("video"@.len() != "subtitle"@.len());
                    } else if chars_equal(kind.as_str(), "subtitle") {
                        let index = match low32_exec(stream.index) {
                            Some(n) => n,
                            None => 0,
                        };
                        let codec = match &stream.codec_name {
                            Some(c) => c.clone(),
                            None => String::from_str("unknown"),
                        };
                        let sub = SubtitleStream {
                            index,
                            language: copy_text(&stream.language),
                            title: copy_text(&stream.title),
                            codec,
                        };
                        assert(sub@ == subtitle_of(*stream));
                        subtitle_streams.push(sub);
                        assert(subtitle_views(subtitle_streams@) =~= subtitle_views(before).push(
                            sub@,
                        ));
                    }
                },
                None => {},
            }
            proof {
                let next = streams@.subrange(0, i + 1);
                assert(next.drop_last() =~= streams@.subrange(0, i as int));
                assert(subtitles_of(next) == if is_subtitle(next.last()) {
                    subtitles_of(next.drop_last()).push(subtitle_of(next.last()))
                } else {
                    subtitles_of(next.drop_last())
                });
            }
            i += 1;
        }
        assert(streams@.subrange(0, streams.len() as int) =~= streams@);
        MediaMetadata { duration_seconds, width, height, codec_name, subtitle_streams }
    }
}

} // verus!
