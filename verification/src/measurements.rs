//! Frame-time measurement: reading the capture file of a presentation
//! monitor, and the statistics of the busiest swap chain.
//!
//! A frame time is handled as the bit pattern of the positive finite number
//! it is; such patterns order as the numbers do.
use vstd::multiset::Multiset;
use vstd::prelude::*;

use crate::number::{number_value, parse_u32};
use crate::persistence::{join, joined};
use crate::text::{chars_of, equal_ignoring_case, same_ignoring_case, same_text, text_of};

verus! {

/// The monitor version that the capture format belongs to.
pub const PRESENTMON_VERSION: &'static str = "2.5.1";

/// The largest capture file that is analysed.
pub const MAX_CAPTURE_BYTES: u64 = 134_217_728;

/// Where measurement reports are kept.
pub fn reports_dir(data_dir: &str) -> (r: String)
    ensures
        r@ == joined(data_dir@, "measurements"@),
{
    join(data_dir, "measurements")
}

/// Where the monitor is, below an installation or data directory.
pub fn helper_path(base: &str) -> (r: String)
    ensures
        r@ == joined(joined(base@, "tools"@), "PresentMon-2.5.1-x64.exe"@),
{
    join(join(base, "tools").as_str(), "PresentMon-2.5.1-x64.exe")
}

/// Why there are no statistics.
#[derive(Clone, Copy, Debug, PartialEq, Eq, Structural)]
pub enum CaptureError {
    BadRequest,
    FileTooLarge,
    NoData,
    UnclosedQuote,
    NoProcessColumn,
    NoChainColumn,
    NoTimeColumn,
    NoFrames,
    TooFewFrames,
    Stopped,
}

impl CaptureError {
    pub open spec fn spec_text(self) -> Seq<char> {
        match self {
            CaptureError::BadRequest => "采集时间需为 5–300 秒，且 PID 必须有效"@,
            CaptureError::FileTooLarge => "采集文件超过 128 MB，请缩短采集时间"@,
            CaptureError::NoData => "没有采集到帧数据"@,
            CaptureError::UnclosedQuote => "CSV 引号未闭合"@,
            CaptureError::NoProcessColumn => "CSV 缺少 ProcessID"@,
            CaptureError::NoChainColumn => "CSV 缺少 SwapChainAddress"@,
            CaptureError::NoTimeColumn => "需要 PresentMon v1_metrics 的 MsBetweenPresents 列"@,
            CaptureError::NoFrames => "没有有效的呈现帧；请确认目标应用正在绘制画面"@,
            CaptureError::TooFewFrames => "有效帧不足 100，无法生成稳定的分位统计"@,
            CaptureError::Stopped => "采集已停止；原始文件已保留"@,
        }
    }

    /// The error in words.
    pub fn text(&self) -> (r: String)
        ensures
            r@ == self.spec_text(),
    {
        match *self {
            CaptureError::BadRequest => String::from_str("采集时间需为 5–300 秒，且 PID 必须有效"),
            CaptureError::FileTooLarge => String::from_str("采集文件超过 128 MB，请缩短采集时间"),
            CaptureError::NoData => String::from_str("没有采集到帧数据"),
            CaptureError::UnclosedQuote => String::from_str("CSV 引号未闭合"),
            CaptureError::NoProcessColumn => String::from_str("CSV 缺少 ProcessID"),
            CaptureError::NoChainColumn => String::from_str("CSV 缺少 SwapChainAddress"),
            CaptureError::NoTimeColumn => String::from_str(
                "需要 PresentMon v1_metrics 的 MsBetweenPresents 列",
            ),
            CaptureError::NoFrames => String::from_str("没有有效的呈现帧；请确认目标应用正在绘制画面"),
            CaptureError::TooFewFrames => String::from_str("有效帧不足 100，无法生成稳定的分位统计"),
            CaptureError::Stopped => String::from_str("采集已停止；原始文件已保留"),
        }
    }
}

/// Whether a capture may start: five seconds to five minutes, of a process.
pub fn check_request(pid: u32, seconds: u32) -> (r: Result<(), CaptureError>)
    ensures
        r == (if 5 <= seconds <= 300 && pid != 0 { Ok::<(), CaptureError>(()) } else { Err(CaptureError::BadRequest) }),
{
    if !(5 <= seconds && seconds <= 300) || pid == 0 {
        Err(CaptureError::BadRequest)
    } else {
        Ok(())
    }
}

/// What a running capture does next.
#[derive(Clone, Copy, Debug, PartialEq, Eq, Structural)]
pub enum CaptureStep {
    /// Ends without statistics.
    GiveUp,
    /// Takes a hardware sample.
    Sample,
    Wait,
}

/// Decides what a running capture does: it is given up when asked to stop, or
/// fifteen seconds after it should have ended; samples are due at times set
/// beforehand.
pub fn capture_step(stop: bool, elapsed_ms: u64, seconds: u32, next_sample_ms: u64) -> (r: CaptureStep)
    ensures
        r == (if stop || elapsed_ms > (seconds + 15) * 1000 {
            CaptureStep::GiveUp
        } else if elapsed_ms >= next_sample_ms {
            CaptureStep::Sample
        } else {
            CaptureStep::Wait
        }),
{
    if stop || elapsed_ms > (seconds as u64 + 15) * 1000 {
        CaptureStep::GiveUp
    } else if elapsed_ms >= next_sample_ms {
        CaptureStep::Sample
    } else {
        CaptureStep::Wait
    }
}

// ---- Rows ----------------------------------------------------------------

/// A line without the carriage returns at its end.
pub open spec fn without_returns(s: Seq<char>) -> Seq<char>
    decreases s.len(),
{
    if s.len() > 0 && s.last() == '\r' { without_returns(s.drop_last()) } else { s }
}

/// The fields of the rest of a line: commas part them outside quotes, a
/// doubled quote inside quotes is one quote. `None` where a quote stays open.
pub open spec fn csv_fields(s: Seq<char>, field: Seq<char>, quoted: bool) -> Option<Seq<Seq<char>>>
    decreases s.len(),
{
    if s.len() == 0 {
        if quoted { None } else { Some(seq![field]) }
    } else if s[0] == '"' {
        if quoted && s.len() > 1 && s[1] == '"' {
            csv_fields(s.skip(2), field.push('"'), quoted)
        } else {
            csv_fields(s.skip(1), field, !quoted)
        }
    } else if s[0] == ',' && !quoted {
        match csv_fields(s.skip(1), Seq::empty(), false) {
            Some(rest) => Some(seq![field] + rest),
            None => None,
        }
    } else {
        csv_fields(s.skip(1), field.push(s[0]), quoted)
    }
}

/// The fields of a line.
pub open spec fn row_fields(line: Seq<char>) -> Option<Seq<Seq<char>>> {
    csv_fields(without_returns(line), Seq::empty(), false)
}

/// The texts of a list.
pub open spec fn texts(v: Seq<String>) -> Seq<Seq<char>> {
    Seq::new(v.len(), |i: int| v[i]@)
}

/// Splits a line into its fields.
pub fn row(line: &str) -> (r: Result<Vec<String>, CaptureError>)
    ensures
        match row_fields(line@) {
            Some(fields) => r matches Ok(v) && texts(v@) == fields,
            None => r == Err::<Vec<String>, CaptureError>(CaptureError::UnclosedQuote),
        },
{
    let mut chars = chars_of(line);
    while chars.len() > 0 && chars[chars.len() - 1] == '\r'
        invariant
            without_returns(chars@) == without_returns(line@),
        ensures
            chars@ == without_returns(line@),
        decreases chars@.len(),
    {
        let ghost before = chars@;
        chars.pop();
        assert(chars@ =~= before.drop_last());
    }
    let mut fields: Vec<String> = Vec::new();
    let mut field: Vec<char> = Vec::new();
    let mut quoted = false;
    let mut i: usize = 0;
    let n: usize = chars.len();
    assert(chars@.skip(0) =~= chars@);
    assert(texts(fields@) =~= Seq::<Seq<char>>::empty());
    while i < n
        invariant
            i <= n,
            n == chars@.len(),
            row_fields(line@) == (match csv_fields(chars@.skip(i as int), field@, quoted) {
                Some(rest) => Some(texts(fields@) + rest),
                None => None,
            }),
        decreases n - i,
    {
        let c = chars[i];
        let ghost rest = chars@.skip(i as int);
        let ghost before = texts(fields@);
        assert(rest[0] == c);
        assert(rest.skip(1) =~= chars@.skip(i + 1));
        if c == '"' {
            if quoted && i + 1 < n && chars[i + 1] == '"' {
                assert(rest[1] == '"');
                assert(rest.skip(2) =~= chars@.skip(i + 2));
                field.push('"');
                i = i + 2;
            } else {
                proof {
                    if rest.len() > 1 {
                        assert(rest[1] == chars@[i + 1]);
                    }
                }
                quoted = !quoted;
                i = i + 1;
            }
        } else if c == ',' && !quoted {
            let done = text_of(&field);
            let ghost held = field@;
            fields.push(done);
            field = Vec::new();
            i = i + 1;
            proof {
                assert(texts(fields@) =~= before.push(held));
                assert(field@ =~= Seq::<char>::empty());
                let tail = csv_fields(chars@.skip(i as int), Seq::<char>::empty(), false);
                if tail is Some {
                    assert(before + (seq![held] + tail->0) =~= texts(fields@) + tail->0);
                }
            }
        } else {
            field.push(c);
            i = i + 1;
        }
    }
    if quoted {
        return Err(CaptureError::UnclosedQuote);
    }
    let ghost before = texts(fields@);
    let last = text_of(&field);
    fields.push(last);
    assert(texts(fields@) =~= before + seq![field@]);
    Ok(fields)
}

/// A text with its quotes doubled.
pub open spec fn escaped(t: Seq<char>) -> Seq<char>
    decreases t.len(),
{
    if t.len() == 0 {
        Seq::empty()
    } else {
        (if t[0] == '"' { seq!['"', '"'] } else { seq![t[0]] }) + escaped(t.drop_first())
    }
}

/// A text as a quoted field.
pub open spec fn quoted_field(t: Seq<char>) -> Seq<char> {
    seq!['"'] + escaped(t) + seq!['"']
}

/// Texts as a row of quoted fields.
pub open spec fn quoted_row(fields: Seq<Seq<char>>) -> Seq<char>
    decreases fields.len(),
{
    if fields.len() == 0 {
        Seq::empty()
    } else if fields.len() == 1 {
        quoted_field(fields[0])
    } else {
        quoted_field(fields[0]) + seq![','] + quoted_row(fields.drop_first())
    }
}

proof fn escaped_is_read_back(t: Seq<char>, rest: Seq<char>, field: Seq<char>)
    requires
        rest.len() == 0 || rest[0] != '"',
    ensures
        csv_fields(escaped(t) + seq!['"'] + rest, field, true) == csv_fields(rest, field + t, false),
    decreases t.len(),
{
    let s = escaped(t) + seq!['"'] + rest;
    if t.len() == 0 {
        assert(s =~= seq!['"'] + rest);
        assert(s.skip(1) =~= rest);
        assert(field + t =~= field);
        if s.len() > 1 {
            assert(s[1] == rest[0]);
        }
    } else {
        let tail = escaped(t.drop_first()) + seq!['"'] + rest;
        escaped_is_read_back(t.drop_first(), rest, field.push(t[0]));
        assert(field.push(t[0]) + t.drop_first() =~= field + t);
        if t[0] == '"' {
            assert(s =~= seq!['"', '"'] + tail);
            assert(s.skip(2) =~= tail);
        } else {
            assert(s =~= seq![t[0]] + tail);
            assert(s.skip(1) =~= tail);
        }
    }
}

proof fn quoted_row_starts_with_a_quote(fields: Seq<Seq<char>>)
    requires
        fields.len() > 0,
    ensures
        quoted_row(fields).len() > 0,
        quoted_row(fields)[0] == '"',
        quoted_row(fields).last() == '"',
    decreases fields.len(),
{
    if fields.len() > 1 {
        quoted_row_starts_with_a_quote(fields.drop_first());
    }
}

proof fn quoted_row_fields(fields: Seq<Seq<char>>)
    requires
        fields.len() > 0,
    ensures
        csv_fields(quoted_row(fields), Seq::empty(), false) == Some(fields),
    decreases fields.len(),
{
    let s = quoted_row(fields);
    let t = fields[0];
    let rest = if fields.len() == 1 {
        Seq::<char>::empty()
    } else {
        seq![','] + quoted_row(fields.drop_first())
    };
    assert(s =~= seq!['"'] + (escaped(t) + seq!['"'] + rest));
    assert(s.skip(1) =~= escaped(t) + seq!['"'] + rest);
    escaped_is_read_back(t, rest, Seq::empty());
    assert(Seq::<char>::empty() + t =~= t);
    if fields.len() == 1 {
        assert(seq![t] =~= fields);
    } else {
        quoted_row_fields(fields.drop_first());
        assert(rest.skip(1) =~= quoted_row(fields.drop_first()));
        assert(seq![t] + fields.drop_first() =~= fields);
    }
}

/// Whatever texts a row quotes, reading it gives the same texts back: commas
/// and quotes inside a field never change the columns.
pub proof fn quoted_fields_are_read_back(fields: Seq<Seq<char>>)
    requires
        fields.len() > 0,
    ensures
        row_fields(quoted_row(fields)) == Some(fields),
{
    quoted_row_fields(fields);
    quoted_row_starts_with_a_quote(fields);
}

// ---- Columns -------------------------------------------------------------

/// A text without the byte-order marks at its start.
pub open spec fn without_marks(s: Seq<char>) -> Seq<char>
    decreases s.len(),
{
    if s.len() > 0 && s[0] == '\u{feff}' { without_marks(s.drop_first()) } else { s }
}

fn trim_marks(s: &str) -> (r: String)
    ensures
        r@ == without_marks(s@),
{
    let v = chars_of(s);
    let mut i: usize = 0;
    assert(v@.skip(0) =~= v@);
    while i < v.len() && v[i] == '\u{feff}'
        invariant
            i <= v@.len(),
            without_marks(v@) == without_marks(v@.skip(i as int)),
        ensures
            i <= v@.len(),
            without_marks(v@) == v@.skip(i as int),
        decreases v@.len() - i,
    {
        assert(v@.skip(i as int)[0] == v@[i as int]);
        assert(v@.skip(i as int).drop_first() =~= v@.skip(i + 1));
        i = i + 1;
        proof {
            if i < v@.len() {
                assert(v@.skip(i as int)[0] == v@[i as int]);
            }
        }
    }
    let mut out: Vec<char> = Vec::new();
    let mut k: usize = i;
    while k < v.len()
        invariant
            i <= k <= v@.len(),
            out@ == v@.subrange(i as int, k as int),
        decreases v@.len() - k,
    {
        out.push(v[k]);
        k = k + 1;
        assert(v@.subrange(i as int, k as int) =~= v@.subrange(i as int, k - 1).push(v@[k - 1]));
    }
    assert(out@ =~= v@.skip(i as int));
    text_of(&out)
}

/// The heading names the column.
pub open spec fn names_column(heading: Seq<char>, name: Seq<char>) -> bool {
    equal_ignoring_case(without_marks(heading), name)
}

/// The first column of that name, or the number of columns.
pub open spec fn column_of(header: Seq<Seq<char>>, name: Seq<char>) -> int
    decreases header.len(),
{
    if header.len() == 0 || names_column(header[0], name) {
        0
    } else {
        1 + column_of(header.drop_first(), name)
    }
}

fn column(header: &Vec<String>, name: &str) -> (r: Option<usize>)
    ensures
        r == (if column_of(texts(header@), name@) < header@.len() {
            Some(column_of(texts(header@), name@) as usize)
        } else {
            None
        }),
{
    let ghost all = texts(header@);
    let mut i: usize = 0;
    assert(all.skip(0) =~= all);
    while i < header.len()
        invariant
            i <= header@.len(),
            all == texts(header@),
            column_of(all, name@) == i + column_of(all.skip(i as int), name@),
        decreases header@.len() - i,
    {
        assert(all.skip(i as int)[0] == header@[i as int]@);
        assert(all.skip(i as int).drop_first() =~= all.skip(i + 1));
        let bare = trim_marks(header[i].as_str());
        if same_ignoring_case(bare.as_str(), name) {
            return Some(i);
        }
        i = i + 1;
    }
    None
}

/// Where a row has its process, swap chain and frame time.
#[derive(Clone, Copy, Debug, PartialEq, Eq, Structural)]
pub struct Columns {
    pub pid: usize,
    pub chain: usize,
    pub time: usize,
}

/// The columns that a header names.
pub open spec fn header_columns(header: Seq<char>) -> Result<Columns, CaptureError> {
    match row_fields(header) {
        None => Err(CaptureError::UnclosedQuote),
        Some(h) => {
            let pid = column_of(h, "ProcessID"@);
            let chain = column_of(h, "SwapChainAddress"@);
            let time = column_of(h, "MsBetweenPresents"@);
            if pid >= h.len() {
                Err(CaptureError::NoProcessColumn)
            } else if chain >= h.len() {
                Err(CaptureError::NoChainColumn)
            } else if time >= h.len() {
                Err(CaptureError::NoTimeColumn)
            } else {
                Ok(Columns { pid: pid as usize, chain: chain as usize, time: time as usize })
            }
        },
    }
}

fn columns(header: &str) -> (r: Result<Columns, CaptureError>)
    ensures
        r == header_columns(header@),
{
    let fields = match row(header) {
        Ok(f) => f,
        Err(e) => return Err(e),
    };
    let pid: usize = match column(&fields, "ProcessID") {
        Some(i) => i,
        None => return Err(CaptureError::NoProcessColumn),
    };
    let chain: usize = match column(&fields, "SwapChainAddress") {
        Some(i) => i,
        None => return Err(CaptureError::NoChainColumn),
    };
    let time: usize = match column(&fields, "MsBetweenPresents") {
        Some(i) => i,
        None => return Err(CaptureError::NoTimeColumn),
    };
    Ok(Columns { pid, chain, time })
}

// ---- Frames --------------------------------------------------------------

/// A row of the process in question: the texts of its swap chain and frame
/// time, where it has them.
#[derive(Debug, PartialEq)]
pub struct FrameRow {
    pub chain: Option<String>,
    pub time: Option<String>,
}

/// A frame row as a value.
pub struct FrameRowView {
    pub chain: Option<Seq<char>>,
    pub time: Option<Seq<char>>,
}

impl View for FrameRow {
    type V = FrameRowView;

    open spec fn view(&self) -> FrameRowView {
        FrameRowView {
            chain: match self.chain {
                Some(c) => Some(c@),
                None => None,
            },
            time: match self.time {
                Some(t) => Some(t@),
                None => None,
            },
        }
    }
}

pub open spec fn field_at(fields: Seq<Seq<char>>, i: usize) -> Option<Seq<char>> {
    if i < fields.len() { Some(fields[i as int]) } else { None }
}

/// What one line says of the process: `None` where the line speaks of another
/// process.
pub open spec fn frame_row(fields: Seq<Seq<char>>, columns: Columns, pid: u32) -> Option<FrameRowView> {
    if field_at(fields, columns.pid) matches Some(t) && number_value(t, 10, u32::MAX as int) == Ok::<
        int,
        crate::number::NumberError,
    >(pid as int) {
        Some(FrameRowView { chain: field_at(fields, columns.chain), time: field_at(fields, columns.time) })
    } else {
        None
    }
}

/// The frame rows of the process, in order.
pub open spec fn frame_rows(lines: Seq<Seq<char>>, columns: Columns, pid: u32) -> Seq<FrameRowView>
    decreases lines.len(),
{
    if lines.len() == 0 {
        Seq::empty()
    } else {
        let before = frame_rows(lines.drop_last(), columns, pid);
        match row_fields(lines.last()) {
            Some(fields) => match frame_row(fields, columns, pid) {
                Some(f) => before.push(f),
                None => before,
            },
            None => before,
        }
    }
}

/// How many lines are no rows.
pub open spec fn unreadable_lines(lines: Seq<Seq<char>>) -> nat
    decreases lines.len(),
{
    if lines.len() == 0 {
        0
    } else {
        unreadable_lines(lines.drop_last()) + if row_fields(lines.last()) is None { 1nat } else { 0nat }
    }
}

/// What a capture file says of one process.
#[derive(Debug, PartialEq)]
pub struct Scan {
    pub rows: Vec<FrameRow>,
    pub unreadable: usize,
}

/// The rows as values.
pub open spec fn row_views(v: Seq<FrameRow>) -> Seq<FrameRowView> {
    Seq::new(v.len(), |i: int| v[i]@)
}

fn text_at(fields: &Vec<String>, i: usize) -> (r: Option<String>)
    ensures
        match field_at(texts(fields@), i) {
            Some(t) => r matches Some(s) && s@ == t,
            None => r is None,
        },
{
    if i < fields.len() {
        Some(fields[i].clone())
    } else {
        None
    }
}

/// Reads a capture: the header, then every line that speaks of the process.
pub fn scan(lines: &Vec<String>, pid: u32) -> (r: Result<Scan, CaptureError>)
    ensures
        if lines@.len() == 0 {
            r == Err::<Scan, CaptureError>(CaptureError::NoData)
        } else {
            match header_columns(lines@[0]@) {
                Err(e) => r == Err::<Scan, CaptureError>(e),
                Ok(columns) => r matches Ok(s) && row_views(s.rows@) == frame_rows(
                    texts(lines@).drop_first(),
                    columns,
                    pid,
                ) && s.unreadable == unreadable_lines(texts(lines@).drop_first()) && s.rows@.len() + s.unreadable
                    <= usize::MAX,
            }
        },
{
    if lines.len() == 0 {
        return Err(CaptureError::NoData);
    }
    let columns = match columns(lines[0].as_str()) {
        Ok(c) => c,
        Err(e) => return Err(e),
    };
    let ghost body = texts(lines@).drop_first();
    let mut rows: Vec<FrameRow> = Vec::new();
    let mut unreadable: usize = 0;
    let mut i: usize = 1;
    assert(row_views(rows@) =~= frame_rows(body.take(0), columns, pid));
    while i < lines.len()
        invariant
            1 <= i <= lines@.len(),
            body == texts(lines@).drop_first(),
            row_views(rows@) == frame_rows(body.take(i - 1), columns, pid),
            unreadable == unreadable_lines(body.take(i - 1)),
            rows@.len() + unreadable <= i - 1,
        decreases lines@.len() - i,
    {
        let ghost seen = body.take(i as int);
        assert(seen.drop_last() =~= body.take(i - 1));
        assert(seen.last() == lines@[i as int]@);
        let ghost before = rows@;
        match row(lines[i].as_str()) {
            Err(_) => {
                unreadable = unreadable + 1;
            },
            Ok(fields) => {
                if let Some(text) = text_at(&fields, columns.pid) {
                    if let Ok(p) = parse_u32(text.as_str()) {
                        if p == pid {
                            rows.push(
                                FrameRow {
                                    chain: text_at(&fields, columns.chain),
                                    time: text_at(&fields, columns.time),
                                },
                            );
                            assert(row_views(rows@) =~= row_views(before).push(rows@.last()@));
                        }
                    }
                }
            },
        }
        i = i + 1;
    }
    assert(body.take(i - 1) =~= body);
    Ok(Scan { rows, unreadable })
}

/// The bit pattern of a positive finite number.
pub open spec fn positive_finite(bits: u64) -> bool {
    0 < bits < 0x7FF0_0000_0000_0000
}

/// The frame times of one swap chain, in order.
#[derive(Debug, PartialEq)]
pub struct ChainFrames {
    pub chain: String,
    pub times: Vec<u64>,
}

/// The frame times of each swap chain, in the order in which they appear.
pub open spec fn chain_views(v: Seq<ChainFrames>) -> Seq<(Seq<char>, Seq<u64>)> {
    Seq::new(v.len(), |i: int| (v[i].chain@, v[i].times@))
}

/// Where a swap chain stands, or the number of swap chains.
pub open spec fn chain_index(groups: Seq<(Seq<char>, Seq<u64>)>, chain: Seq<char>) -> int
    decreases groups.len(),
{
    if groups.len() == 0 || groups[0].0 == chain { 0 } else { 1 + chain_index(groups.drop_first(), chain) }
}

/// The index is that of the first group of the chain, or the number of groups.
pub proof fn chain_index_found(groups: Seq<(Seq<char>, Seq<u64>)>, chain: Seq<char>)
    ensures
        0 <= chain_index(groups, chain) <= groups.len(),
        chain_index(groups, chain) < groups.len() ==> groups[chain_index(groups, chain)].0 == chain,
        forall|k: int| 0 <= k < chain_index(groups, chain) ==> (#[trigger] groups[k]).0 != chain,
    decreases groups.len(),
{
    if groups.len() > 0 && groups[0].0 != chain {
        let rest = groups.drop_first();
        chain_index_found(rest, chain);
        assert forall|k: int| 0 <= k < chain_index(groups, chain) implies (#[trigger] groups[k]).0 != chain by {
            if k > 0 {
                assert(rest[k - 1] == groups[k]);
            }
        }
    }
}

/// One more frame of a swap chain.
pub open spec fn with_frame(groups: Seq<(Seq<char>, Seq<u64>)>, chain: Seq<char>, time: u64) -> Seq<
    (Seq<char>, Seq<u64>),
> {
    let i = chain_index(groups, chain);
    if i < groups.len() {
        groups.update(i, (chain, groups[i].1.push(time)))
    } else {
        groups.push((chain, seq![time]))
    }
}

/// A row that counts: it has a swap chain and a positive finite time.
pub open spec fn counts(row: FrameRowView, time: Option<u64>) -> bool {
    row.chain is Some && (time matches Some(t) && positive_finite(t))
}

/// The frames of the rows that count, by swap chain.
pub open spec fn grouped(rows: Seq<FrameRowView>, times: Seq<Option<u64>>) -> Seq<(Seq<char>, Seq<u64>)>
    recommends
        rows.len() == times.len(),
    decreases rows.len(),
{
    if rows.len() == 0 {
        Seq::empty()
    } else {
        let before = grouped(rows.drop_last(), times.drop_last());
        if counts(rows.last(), times.last()) {
            with_frame(before, rows.last().chain->0, times.last()->0)
        } else {
            before
        }
    }
}

/// How many rows do not count.
pub open spec fn uncounted(rows: Seq<FrameRowView>, times: Seq<Option<u64>>) -> nat
    recommends
        rows.len() == times.len(),
    decreases rows.len(),
{
    if rows.len() == 0 {
        0
    } else {
        uncounted(rows.drop_last(), times.drop_last()) + if counts(rows.last(), times.last()) { 0nat } else { 1nat }
    }
}

/// How many frames all swap chains have together.
pub open spec fn frame_total(groups: Seq<(Seq<char>, Seq<u64>)>) -> nat
    decreases groups.len(),
{
    if groups.len() == 0 { 0 } else { frame_total(groups.drop_last()) + groups.last().1.len() }
}

proof fn frame_total_update(groups: Seq<(Seq<char>, Seq<u64>)>, i: int, g: (Seq<char>, Seq<u64>))
    requires
        0 <= i < groups.len(),
        g.1.len() == groups[i].1.len() + 1,
    ensures
        frame_total(groups.update(i, g)) == frame_total(groups) + 1,
    decreases groups.len(),
{
    let u = groups.update(i, g);
    if i == groups.len() - 1 {
        assert(u.drop_last() =~= groups.drop_last());
    } else {
        assert(u.drop_last() =~= groups.drop_last().update(i, g));
        assert(u.last() == groups.last());
        frame_total_update(groups.drop_last(), i, g);
    }
}

/// No frame is lost and none is counted twice: every row is either a frame of
/// exactly one swap chain or rejected.
pub proof fn every_row_is_a_frame_or_rejected(rows: Seq<FrameRowView>, times: Seq<Option<u64>>)
    requires
        rows.len() == times.len(),
    ensures
        frame_total(grouped(rows, times)) + uncounted(rows, times) == rows.len(),
    decreases rows.len(),
{
    if rows.len() > 0 {
        every_row_is_a_frame_or_rejected(rows.drop_last(), times.drop_last());
        let before = grouped(rows.drop_last(), times.drop_last());
        if counts(rows.last(), times.last()) {
            let chain = rows.last().chain->0;
            let time = times.last()->0;
            let i = chain_index(before, chain);
            chain_index_found(before, chain);
            if i < before.len() {
                frame_total_update(before, i, (chain, before[i].1.push(time)));
            } else {
                assert(before.push((chain, seq![time])).drop_last() =~= before);
            }
        }
    }
}

fn add_frame(groups: &mut Vec<ChainFrames>, chain: &String, time: u64)
    ensures
        chain_views(final(groups)@) == with_frame(chain_views(old(groups)@), chain@, time),
{
    let ghost all = chain_views(groups@);
    let n: usize = groups.len();
    let mut i: usize = 0;
    assert(all.skip(0) =~= all);
    while i < n && !same_text(groups[i].chain.as_str(), chain.as_str())
        invariant
            i <= n,
            n == groups@.len(),
            all == chain_views(groups@),
            *groups == *old(groups),
            chain_index(all, chain@) == i + chain_index(all.skip(i as int), chain@),
        ensures
            i <= n,
            *groups == *old(groups),
            chain_index(all, chain@) == i,
        decreases n - i,
    {
        assert(all.skip(i as int)[0] == all[i as int]);
        assert(all.skip(i as int).drop_first() =~= all.skip(i + 1));
        i = i + 1;
        proof {
            if i < n {
                assert(all.skip(i as int)[0] == all[i as int]);
            }
        }
    }
    if i < n {
        proof {
            chain_index_found(all, chain@);
        }
        groups[i].times.push(time);
        assert(chain_views(groups@) =~= with_frame(all, chain@, time));
    } else {
        let mut times: Vec<u64> = Vec::new();
        times.push(time);
        assert(times@ =~= seq![time]);
        groups.push(ChainFrames { chain: chain.clone(), times });
        assert(chain_views(groups@) =~= with_frame(all, chain@, time));
    }
}

/// A text stands before another in code-point order.
pub open spec fn text_before(a: Seq<char>, b: Seq<char>) -> bool
    decreases a.len(),
{
    if b.len() == 0 {
        false
    } else if a.len() == 0 {
        true
    } else if a[0] != b[0] {
        (a[0] as u32) < (b[0] as u32)
    } else {
        text_before(a.drop_first(), b.drop_first())
    }
}

proof fn text_before_transitive(a: Seq<char>, b: Seq<char>, c: Seq<char>)
    requires
        text_before(a, b),
        text_before(b, c),
    ensures
        text_before(a, c),
    decreases a.len(),
{
    if a.len() > 0 && a[0] == b[0] && b[0] == c[0] {
        text_before_transitive(a.drop_first(), b.drop_first(), c.drop_first());
    }
}

proof fn text_before_irreflexive(a: Seq<char>)
    ensures
        !text_before(a, a),
    decreases a.len(),
{
    if a.len() > 0 {
        text_before_irreflexive(a.drop_first());
    }
}

fn stands_before(a: &str, b: &str) -> (r: bool)
    ensures
        r == text_before(a@, b@),
{
    let x = chars_of(a);
    let y = chars_of(b);
    let mut i: usize = 0;
    assert(x@.skip(0) =~= x@);
    assert(y@.skip(0) =~= y@);
    while i < x.len() && i < y.len() && x[i] == y[i]
        invariant
            i <= x@.len(),
            i <= y@.len(),
            text_before(x@, y@) == text_before(x@.skip(i as int), y@.skip(i as int)),
        ensures
            i <= x@.len(),
            i <= y@.len(),
            i < x@.len() && i < y@.len() ==> x@[i as int] != y@[i as int],
            text_before(x@, y@) == text_before(x@.skip(i as int), y@.skip(i as int)),
        decreases x@.len() - i,
    {
        assert(x@.skip(i as int).drop_first() =~= x@.skip(i + 1));
        assert(y@.skip(i as int).drop_first() =~= y@.skip(i + 1));
        i = i + 1;
    }
    if i == y.len() {
        false
    } else if i == x.len() {
        true
    } else {
        (x[i] as u32) < (y[i] as u32)
    }
}

/// No swap chain has more frames, and none with as many has a later name.
pub open spec fn busiest(groups: Seq<(Seq<char>, Seq<u64>)>, k: int) -> bool {
    &&& 0 <= k < groups.len()
    &&& forall|j: int|
        0 <= j < groups.len() ==> ((#[trigger] groups[j]).1.len() < groups[k].1.len() || (groups[j].1.len()
            == groups[k].1.len() && !text_before(groups[k].0, groups[j].0)))
}

proof fn same_code_same_char(a: char, b: char)
    requires
        a as u32 == b as u32,
    ensures
        a == b,
{
}

proof fn texts_are_ordered(a: Seq<char>, b: Seq<char>)
    requires
        !text_before(a, b),
        !text_before(b, a),
    ensures
        a == b,
    decreases a.len(),
{
    if a.len() == 0 || b.len() == 0 {
        assert(a =~= b);
    } else {
        same_code_same_char(a[0], b[0]);
        texts_are_ordered(a.drop_first(), b.drop_first());
        assert(a =~= seq![a[0]] + a.drop_first());
        assert(b =~= seq![b[0]] + b.drop_first());
    }
}

/// No two groups are of one swap chain.
pub open spec fn chains_apart(groups: Seq<(Seq<char>, Seq<u64>)>) -> bool {
    forall|i: int, j: int|
        0 <= i < groups.len() && 0 <= j < groups.len() && i != j ==> (#[trigger] groups[i]).0 != (#[trigger] groups[j]).0
}

proof fn chains_are_apart(rows: Seq<FrameRowView>, times: Seq<Option<u64>>)
    ensures
        chains_apart(grouped(rows, times)),
    decreases rows.len(),
{
    if rows.len() > 0 {
        let before = grouped(rows.drop_last(), times.drop_last());
        chains_are_apart(rows.drop_last(), times.drop_last());
        if counts(rows.last(), times.last()) {
            let chain = rows.last().chain->0;
            let after = with_frame(before, chain, times.last()->0);
            chain_index_found(before, chain);
            let at = chain_index(before, chain);
            assert forall|i: int, j: int| 0 <= i < after.len() && 0 <= j < after.len() && i != j implies (
            #[trigger] after[i]).0 != (#[trigger] after[j]).0 by {
                if i < before.len() {
                    assert(after[i].0 == before[i].0);
                }
                if j < before.len() {
                    assert(after[j].0 == before[j].0);
                }
            }
        }
    }
}

/// One swap chain decides: no two are the busiest.
pub proof fn one_chain_is_the_busiest(rows: Seq<FrameRowView>, times: Seq<Option<u64>>, a: int, b: int)
    requires
        busiest(grouped(rows, times), a),
        busiest(grouped(rows, times), b),
    ensures
        a == b,
{
    let groups = grouped(rows, times);
    chains_are_apart(rows, times);
    assert(groups[a].1.len() == groups[b].1.len());
    texts_are_ordered(groups[a].0, groups[b].0);
}

fn find_busiest(groups: &Vec<ChainFrames>) -> (r: usize)
    requires
        groups@.len() > 0,
    ensures
        busiest(chain_views(groups@), r as int),
{
    let ghost all = chain_views(groups@);
    let mut best: usize = 0;
    let mut i: usize = 1;
    proof {
        text_before_irreflexive(all[0].0);
    }
    while i < groups.len()
        invariant
            1 <= i <= groups@.len(),
            best < i,
            all == chain_views(groups@),
            forall|j: int|
                0 <= j < i ==> ((#[trigger] all[j]).1.len() < all[best as int].1.len() || (all[j].1.len()
                    == all[best as int].1.len() && !text_before(all[best as int].0, all[j].0))),
        decreases groups@.len() - i,
    {
        let a: usize = groups[i].times.len();
        let b: usize = groups[best].times.len();
        if a > b || (a == b && stands_before(groups[best].chain.as_str(), groups[i].chain.as_str())) {
            proof {
                text_before_irreflexive(all[i as int].0);
                assert forall|j: int| 0 <= j < i + 1 implies ((#[trigger] all[j]).1.len() < all[i as int].1.len() || (
                all[j].1.len() == all[i as int].1.len() && !text_before(all[i as int].0, all[j].0))) by {
                    if j < i && a == b && text_before(all[i as int].0, all[j].0) {
                        text_before_transitive(all[best as int].0, all[i as int].0, all[j].0);
                    }
                }
            }
            best = i;
        }
        i = i + 1;
    }
    best
}

/// Times in rising order.
pub open spec fn ascending(s: Seq<u64>) -> bool {
    forall|i: int, j: int| 0 <= i <= j < s.len() ==> s[i] <= s[j]
}

fn merge_ascending(a: &Vec<u64>, b: &Vec<u64>) -> (r: Vec<u64>)
    requires
        ascending(a@),
        ascending(b@),
    ensures
        ascending(r@),
        r@.to_multiset() == a@.to_multiset().add(b@.to_multiset()),
{
    broadcast use vstd::seq_lib::group_to_multiset_ensures;

    let mut r: Vec<u64> = Vec::new();
    let mut i: usize = 0;
    let mut j: usize = 0;
    assert(a@.take(0).to_multiset() =~= Multiset::<u64>::empty());
    assert(b@.take(0).to_multiset() =~= Multiset::<u64>::empty());
    assert(r@.to_multiset() =~= Multiset::<u64>::empty());
    assert(r@.to_multiset() =~= a@.take(0).to_multiset().add(b@.take(0).to_multiset()));
    while i < a.len() || j < b.len()
        invariant
            i <= a@.len(),
            j <= b@.len(),
            ascending(a@),
            ascending(b@),
            ascending(r@),
            forall|k: int, x: int| 0 <= k < r@.len() && i <= x < a@.len() ==> r@[k] <= a@[x],
            forall|k: int, x: int| 0 <= k < r@.len() && j <= x < b@.len() ==> r@[k] <= b@[x],
            r@.to_multiset() == a@.take(i as int).to_multiset().add(b@.take(j as int).to_multiset()),
        decreases a@.len() - i + b@.len() - j,
    {
        let ghost before = r@;
        if j >= b.len() || (i < a.len() && a[i] <= b[j]) {
            r.push(a[i]);
            proof {
                vstd::seq_lib::to_multiset_build(before, a@[i as int]);
                vstd::seq_lib::to_multiset_build(a@.take(i as int), a@[i as int]);
                assert(a@.take(i + 1) =~= a@.take(i as int).push(a@[i as int]));
            }
            i = i + 1;
        } else {
            r.push(b[j]);
            proof {
                vstd::seq_lib::to_multiset_build(before, b@[j as int]);
                vstd::seq_lib::to_multiset_build(b@.take(j as int), b@[j as int]);
                assert(b@.take(j + 1) =~= b@.take(j as int).push(b@[j as int]));
            }
            j = j + 1;
        }
        assert(r@.to_multiset() =~= a@.take(i as int).to_multiset().add(b@.take(j as int).to_multiset()));
    }
    assert(a@.take(i as int) =~= a@);
    assert(b@.take(j as int) =~= b@);
    r
}

/// Sorts the times `lo..hi`.
fn sort_range(v: &Vec<u64>, lo: usize, hi: usize) -> (r: Vec<u64>)
    requires
        lo <= hi <= v@.len(),
    ensures
        ascending(r@),
        r@.to_multiset() == v@.subrange(lo as int, hi as int).to_multiset(),
    decreases hi - lo,
{
    if hi - lo == 0 {
        let r: Vec<u64> = Vec::new();
        assert(r@ =~= v@.subrange(lo as int, hi as int));
        return r;
    }
    if hi - lo == 1 {
        let mut r: Vec<u64> = Vec::new();
        r.push(v[lo]);
        assert(r@ =~= v@.subrange(lo as int, hi as int));
        return r;
    }
    let mid: usize = lo + (hi - lo) / 2;
    let a = sort_range(v, lo, mid);
    let b = sort_range(v, mid, hi);
    let r = merge_ascending(&a, &b);
    proof {
        let x = v@.subrange(lo as int, mid as int);
        let y = v@.subrange(mid as int, hi as int);
        assert(v@.subrange(lo as int, hi as int) =~= x + y);
        vstd::seq_lib::lemma_multiset_commutative(x, y);
    }
    r
}

/// How many of `count` frames make up `percent` of them, rounded up.
pub open spec fn share(count: int, percent: int) -> int {
    (count * percent + 99) / 100
}

fn share_of(count: usize, percent: usize) -> (r: usize)
    requires
        count > 0,
        1 <= percent <= 100,
    ensures
        r == share(count as int, percent as int),
        1 <= r <= count,
{
    assert(0 <= count * percent <= count * 100) by (nonlinear_arith)
        requires
            count > 0,
            1 <= percent <= 100,
    ;
    assert(count * percent >= count) by (nonlinear_arith)
        requires
            count > 0,
            1 <= percent,
    ;
    let n: u128 = (count as u128 * percent as u128 + 99) / 100;
    n as usize
}

/// The statistics of one capture. The frame times are those of the busiest
/// swap chain, in rising order; the slow frames are the last `slow_count`.
#[derive(Debug, PartialEq)]
pub struct FrameSummary {
    pub pid: u32,
    pub swap_chain: String,
    pub times: Vec<u64>,
    pub slow_count: usize,
    pub p95: u64,
    pub p99: u64,
    pub other_swap_chains: usize,
    pub rejected_rows: usize,
}

/// The fewest frames that give stable statistics.
pub const MIN_FRAMES: usize = 100;

/// The summary describes the frames of that swap chain.
pub open spec fn describes(s: FrameSummary, frames: (Seq<char>, Seq<u64>)) -> bool {
    let n = frames.1.len() as int;
    &&& s.swap_chain@ == frames.0
    &&& ascending(s.times@)
    &&& s.times@.to_multiset() == frames.1.to_multiset()
    &&& s.times@.len() == n
    &&& s.slow_count == share(n, 1)
    &&& s.p95 == s.times@[share(n, 95) - 1]
    &&& s.p99 == s.times@[share(n, 99) - 1]
}

/// The statistics of a scan, given the frame times of its rows as bit
/// patterns (`None` where a row has no number). Rows without a swap chain or
/// a positive finite time are rejected, and the busiest swap chain decides.
pub fn analyze(scan: &Scan, times: &Vec<Option<u64>>, pid: u32) -> (r: Result<FrameSummary, CaptureError>)
    requires
        times@.len() == scan.rows@.len(),
        scan.rows@.len() + scan.unreadable <= usize::MAX,
    ensures
        ({
            let groups = grouped(row_views(scan.rows@), times@);
            if groups.len() == 0 {
                r == Err::<FrameSummary, CaptureError>(CaptureError::NoFrames)
            } else {
                exists|k: int| #[trigger]
                    busiest(groups, k) && (if groups[k].1.len() < MIN_FRAMES {
                        r == Err::<FrameSummary, CaptureError>(CaptureError::TooFewFrames)
                    } else {
                        r matches Ok(s) && s.pid == pid && describes(s, groups[k]) && s.other_swap_chains
                            == groups.len() - 1 && s.rejected_rows == scan.unreadable + uncounted(
                            row_views(scan.rows@),
                            times@,
                        )
                    })
            }
        }),
{
    let ghost rows = row_views(scan.rows@);
    let mut groups: Vec<ChainFrames> = Vec::new();
    let mut rejected: usize = scan.unreadable;
    let mut i: usize = 0;
    assert(chain_views(groups@) =~= grouped(rows.take(0), times@.take(0)));
    while i < times.len()
        invariant
            i <= times@.len(),
            times@.len() == scan.rows@.len(),
            scan.rows@.len() + scan.unreadable <= usize::MAX,
            rows == row_views(scan.rows@),
            chain_views(groups@) == grouped(rows.take(i as int), times@.take(i as int)),
            rejected == scan.unreadable + uncounted(rows.take(i as int), times@.take(i as int)),
            rejected <= scan.unreadable + i,
        decreases times@.len() - i,
    {
        let ghost rs = rows.take(i + 1);
        let ghost ts = times@.take(i + 1);
        assert(rs.drop_last() =~= rows.take(i as int));
        assert(ts.drop_last() =~= times@.take(i as int));
        assert(rs.last() == scan.rows@[i as int]@);
        assert(ts.last() == times@[i as int]);
        let valid = match times[i] {
            Some(t) => 0 < t && t < 0x7FF0_0000_0000_0000,
            None => false,
        };
        match (&scan.rows[i].chain, times[i]) {
            (Some(chain), Some(t)) => if valid {
                add_frame(&mut groups, chain, t);
            } else {
                rejected = rejected + 1;
            },
            _ => {
                rejected = rejected + 1;
            },
        }
        i = i + 1;
    }
    assert(rows.take(i as int) =~= rows);
    assert(times@.take(i as int) =~= times@);
    if groups.len() == 0 {
        return Err(CaptureError::NoFrames);
    }
    let k: usize = find_busiest(&groups);
    let ghost g = chain_views(groups@)[k as int];
    let count: usize = groups[k].times.len();
    if count < MIN_FRAMES {
        return Err(CaptureError::TooFewFrames);
    }
    let sorted = sort_range(&groups[k].times, 0, count);
    proof {
        assert(groups@[k as int].times@.subrange(0, count as int) =~= groups@[k as int].times@);
        vstd::seq_lib::to_multiset_len(sorted@);
        vstd::seq_lib::to_multiset_len(g.1);
    }
    let p95: u64 = sorted[share_of(count, 95) - 1];
    let p99: u64 = sorted[share_of(count, 99) - 1];
    let slow_count: usize = share_of(count, 1);
    let other_swap_chains: usize = groups.len() - 1;
    let swap_chain = groups[k].chain.clone();
    let s = FrameSummary { pid, swap_chain, times: sorted, slow_count, p95, p99, other_swap_chains, rejected_rows: rejected };
    assert(describes(s, g));
    Ok(s)
}

/// The percentile covers its share: at least `percent` of a hundred frames
/// take no longer, and the frames that do take longer are behind it.
pub proof fn percentile_covers_its_share(times: Seq<u64>, percent: int)
    requires
        ascending(times),
        times.len() > 0,
        1 <= percent <= 100,
    ensures
        1 <= share(times.len() as int, percent) <= times.len(),
        share(times.len() as int, percent) * 100 >= times.len() * percent,
        (share(times.len() as int, percent) - 1) * 100 < times.len() * percent,
        forall|i: int|
            0 <= i < share(times.len() as int, percent) ==> #[trigger] times[i] <= times[share(
                times.len() as int,
                percent,
            ) - 1],
{
    let n = times.len() as int;
    assert(n <= n * percent <= n * 100) by (nonlinear_arith)
        requires
            n > 0,
            1 <= percent <= 100,
    ;
}

/// The statistics of one capture as a report gives them. A rate and a frame
/// time are floating-point numbers, by their bits.
#[derive(Debug, PartialEq)]
pub struct FrameStatistics {
    pub pid: u32,
    pub swap_chain: String,
    pub frames: usize,
    pub mean_fps: u64,
    pub one_percent_low_fps: u64,
    pub p95_ms: u64,
    pub p99_ms: u64,
    pub other_swap_chains: usize,
    pub rejected_rows: usize,
}

impl Clone for FrameStatistics {
    fn clone(&self) -> (r: Self)
        ensures
            r == *self,
    {
        FrameStatistics {
            pid: self.pid,
            swap_chain: self.swap_chain.clone(),
            frames: self.frames,
            mean_fps: self.mean_fps,
            one_percent_low_fps: self.one_percent_low_fps,
            p95_ms: self.p95_ms,
            p99_ms: self.p99_ms,
            other_swap_chains: self.other_swap_chains,
            rejected_rows: self.rejected_rows,
        }
    }
}

impl FrameSummary {
    /// The statistics as a report gives them, with the rates of all frames
    /// and of the slow ones.
    pub fn statistics(self, mean_fps: u64, one_percent_low_fps: u64) -> (r: FrameStatistics)
        ensures
            r == (FrameStatistics {
                pid: self.pid,
                swap_chain: self.swap_chain,
                frames: self.times@.len() as usize,
                mean_fps,
                one_percent_low_fps,
                p95_ms: self.p95,
                p99_ms: self.p99,
                other_swap_chains: self.other_swap_chains,
                rejected_rows: self.rejected_rows,
            }),
    {
        FrameStatistics {
            pid: self.pid,
            swap_chain: self.swap_chain,
            frames: self.times.len(),
            mean_fps,
            one_percent_low_fps,
            p95_ms: self.p95,
            p99_ms: self.p99,
            other_swap_chains: self.other_swap_chains,
            rejected_rows: self.rejected_rows,
        }
    }
}

/// The report of one capture.
#[derive(Debug, PartialEq)]
pub struct CaptureReport {
    pub schema_version: u32,
    pub label: String,
    pub executable: String,
    pub process_creation_time: u64,
    /// A floating-point number of seconds, by its bits.
    pub duration_s: u64,
    pub presentmon_version: String,
    pub frames: FrameStatistics,
    /// The samples of the sensors, as a JSON list.
    pub hardware: String,
    pub csv_path: String,
    pub json_path: String,
    /// The state of the machine at the start, as a JSON document.
    pub context: String,
}

impl Clone for CaptureReport {
    fn clone(&self) -> (r: Self)
        ensures
            r == *self,
    {
        CaptureReport {
            schema_version: self.schema_version,
            label: self.label.clone(),
            executable: self.executable.clone(),
            process_creation_time: self.process_creation_time,
            duration_s: self.duration_s,
            presentmon_version: self.presentmon_version.clone(),
            frames: self.frames.clone(),
            hardware: self.hardware.clone(),
            csv_path: self.csv_path.clone(),
            json_path: self.json_path.clone(),
            context: self.context.clone(),
        }
    }
}

} // verus!
