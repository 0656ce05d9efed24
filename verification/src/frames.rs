//! The dataframe engine, as far as the session calls it: the steps by which
//! one lazy graph is built from another, and the writing of an evaluated
//! frame in the wire format. Nothing here evaluates a graph or touches a
//! file: each step on a graph only adds a node to a plan, and a frame is
//! written into memory.
//!
//! Graphs, frames and failures are opaque. What a call on a graph or a
//! frame gives is named by a function without a body, so that the contracts
//! of the session can say which graph is meant; nothing is known of a name
//! but that the same arguments give the same result. The message of a
//! failure has no name: the same failure need not read the same everywhere.

use crate::text::texts_of;
use polars::prelude::{
    Column, CompatLevel, DataFrame, Expr, IpcStreamWriter, LazyCsvReader, LazyFileListReader,
    LazyFrame, PlSmallStr, PolarsError, ScanArgsIpc, ScanArgsParquet, SerWriter,
    SortMultipleOptions,
};
use vstd::prelude::*;

verus! {

/// A lazy computation graph of the dataframe engine. Opaque: nothing of its
/// contents is known to the proofs.
#[verifier::external_type_specification]
#[verifier::external_body]
pub struct ExLazyFrame(LazyFrame);

/// An expression of the dataframe engine. Opaque.
#[verifier::external_type_specification]
#[verifier::external_body]
pub struct ExExpr(Expr);

/// A dataframe: what the evaluation of a graph gives. Opaque.
#[verifier::external_type_specification]
#[verifier::external_body]
pub struct ExDataFrame(DataFrame);

/// A column of a dataframe. Opaque, and named by no function of the engine:
/// it is declared because the declaration of `DataFrame` needs it.
#[verifier::external_type_specification]
#[verifier::external_body]
pub struct ExColumn(Column);

/// A failure of the dataframe engine. Opaque.
#[verifier::external_type_specification]
#[verifier::external_body]
pub struct ExPolarsError(PolarsError);

/// The graph that `LazyCsvReader::finish` gives for a reader on the file at
/// `path`, with a header line and the separator given.
pub uninterp spec fn csv_graph(path: Seq<char>, separator: u8) -> LazyFrame;

/// The graph that `LazyFrame::scan_parquet` gives for the file at `path`,
/// with the default arguments.
pub uninterp spec fn parquet_graph(path: Seq<char>) -> LazyFrame;

/// The graph that `LazyFrame::scan_ipc` gives for the file at `path`, with
/// the default arguments.
pub uninterp spec fn ipc_graph(path: Seq<char>) -> LazyFrame;

/// The graph that `LazyFrame::sort` gives for `frame`: sorted by `columns`,
/// each in the direction that `descending` gives.
pub uninterp spec fn sorted_graph(
    frame: LazyFrame,
    columns: Seq<Seq<char>>,
    descending: Seq<bool>,
) -> LazyFrame;

/// The graph that `LazyFrame::filter` gives for `frame` and `predicate`.
pub uninterp spec fn filtered_graph(frame: LazyFrame, predicate: Expr) -> LazyFrame;

/// The graph that `LazyFrame::limit` gives for `frame`: its first `limit`
/// rows.
pub uninterp spec fn limited_graph(frame: LazyFrame, limit: u32) -> LazyFrame;

/// The graph that `LazyFrame::slice` gives for `frame`: `limit` rows at most,
/// from row `offset` on.
pub uninterp spec fn sliced_graph(frame: LazyFrame, offset: i64, limit: u32) -> LazyFrame;

/// The bytes that `IpcStreamWriter::finish` writes for `frame` at the newest
/// compatibility level, in the byte order of the machine that the library
/// is built for; nothing where the writer fails.
pub uninterp spec fn wire_bytes(frame: DataFrame) -> Option<Seq<u8>>;

/// Calls `LazyCsvReader::finish` on a reader for `path` with a header line
/// and the given separator. Trusted: that it gives a graph, and that the
/// graph depends on the path and the separator alone. The reader only
/// records the path and its options in a node of a plan; the file is not
/// looked at before the graph is evaluated.
#[verifier::external_body]
pub(crate) fn scan_csv(path: &str, separator: u8) -> (r: Result<LazyFrame, PolarsError>)
    ensures
        r is Ok,
        r->Ok_0 == csv_graph(path@, separator),
{
    LazyCsvReader::new(path).with_has_header(true).with_separator(separator).finish()
}

/// Calls `LazyFrame::scan_parquet` with the default arguments. Trusted: that
/// it gives a graph, and that the graph depends on the path alone. The path
/// and the arguments are recorded in a node of a plan; the file is not
/// looked at before the graph is evaluated.
#[verifier::external_body]
pub(crate) fn scan_parquet(path: &str) -> (r: Result<LazyFrame, PolarsError>)
    ensures
        r is Ok,
        r->Ok_0 == parquet_graph(path@),
{
    LazyFrame::scan_parquet(path, ScanArgsParquet::default())
}

/// Calls `LazyFrame::scan_ipc` with the default arguments. Trusted: that it
/// gives a graph, and that the graph depends on the path alone. The path
/// and the arguments are recorded in a node of a plan; the file is not
/// looked at before the graph is evaluated.
#[verifier::external_body]
pub(crate) fn scan_ipc(path: &str) -> (r: Result<LazyFrame, PolarsError>)
    ensures
        r is Ok,
        r->Ok_0 == ipc_graph(path@),
{
    LazyFrame::scan_ipc(path, ScanArgsIpc::default())
}

/// The message of a failure of the dataframe engine, as its `Display` impl
/// writes it. Nothing is promised of the text: for a failure of the
/// operating system it is the system's own wording, which is not the same
/// on every machine.
#[verifier::external_body]
pub(crate) fn error_message(e: &PolarsError) -> String {
    e.to_string()
}

/// Calls `LazyFrame::sort` on a copy of `frame`: by `columns`, each in the
/// direction that `descending` gives. Trusted: that the graph depends on
/// the frame, the columns and the directions alone. The call adds a node
/// to the plan of the frame.
#[verifier::external_body]
pub(crate) fn sorted(
    frame: &LazyFrame,
    columns: &Vec<String>,
    descending: &Vec<bool>,
) -> (r: LazyFrame)
    ensures
        r == sorted_graph(*frame, texts_of(columns@), descending@),
{
    let by: Vec<PlSmallStr> = columns.iter().map(|c| PlSmallStr::from(c.as_str())).collect();
    let options = SortMultipleOptions::new().with_order_descending_multi(descending.clone());
    frame.clone().sort(by, options)
}

/// Calls `LazyFrame::filter` on a copy of `frame`. Trusted: that the graph
/// depends on the frame and the predicate alone. The call adds a node to
/// the plan of the frame.
#[verifier::external_body]
pub(crate) fn filtered(frame: &LazyFrame, predicate: Expr) -> (r: LazyFrame)
    ensures
        r == filtered_graph(*frame, predicate),
{
    frame.clone().filter(predicate)
}

/// Calls `LazyFrame::limit` on a copy of `frame`. Trusted: that the graph
/// depends on the frame and the limit alone. The call adds a node to the
/// plan of the frame.
#[verifier::external_body]
pub(crate) fn limited(frame: &LazyFrame, limit: u32) -> (r: LazyFrame)
    ensures
        r == limited_graph(*frame, limit),
{
    frame.clone().limit(limit)
}

/// Calls `LazyFrame::slice` on a copy of `frame`. Trusted: that the graph
/// depends on the frame, the offset and the limit alone. The call adds a
/// node to the plan of the frame.
#[verifier::external_body]
pub(crate) fn sliced(frame: &LazyFrame, offset: i64, limit: u32) -> (r: LazyFrame)
    ensures
        r == sliced_graph(*frame, offset, limit),
{
    frame.clone().slice(offset, limit)
}

/// Calls `IpcStreamWriter::finish` on a copy of `frame`, with a writer into
/// a fresh buffer at the newest compatibility level, and hands back the
/// buffer. Trusted: that what is written, and whether the writer fails,
/// depends on the frame alone.
#[verifier::external_body]
pub(crate) fn frame_to_ipc(frame: &DataFrame) -> (r: Result<Vec<u8>, PolarsError>)
    ensures
        match r {
            Ok(bytes) => wire_bytes(*frame) == Some(bytes@),
            Err(_) => wire_bytes(*frame) is None,
        },
{
    let mut buffer: Vec<u8> = Vec::new();
    let mut copy = frame.clone();
    let mut writer = IpcStreamWriter::new(&mut buffer).with_compat_level(CompatLevel::newest());
    match writer.finish(&mut copy) {
        Ok(()) => Ok(buffer),
        Err(e) => Err(e),
    }
}

/// Calls `LazyFrame::clone`. Trusted: that the copy is the same graph. The
/// impl is derived, so the copy holds a clone of the plan and of the
/// optimizer's flags.
#[verifier::external_body]
pub(crate) fn copied(frame: &LazyFrame) -> (r: LazyFrame)
    ensures
        r == *frame,
{
    frame.clone()
}

} // verus!
