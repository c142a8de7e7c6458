//! The per-trait derivation entry points.
//!
//! Each function validates the raw input once and, on success, runs one
//! synthesis call for its trait family and renders the single resulting
//! implementation block. On a validation error no output is produced at
//! all. A caller requesting several traits makes one call per trait and
//! concatenates the blocks.

use vstd::prelude::*;

use vstd::string::StringExecFns;

use crate::descriptor::{
    extract, spec_extract, EnumDescriptorModel, RawInput, RawInputModel, ValidationError,
    ValidationErrorModel,
};
use crate::render::{render_impl, spec_render_impl};
use crate::resolve::{
    spec_io_trait_path, spec_sink_trait_path, spec_stream_trait_path, CrateResolution,
};
use crate::synth::{spec_synthesize, synthesize};
use crate::tables::{
    async_buf_read_table, async_read_table, async_seek_table, async_write_table, future_table,
    sink_table, spec_async_buf_read_table, spec_async_read_table, spec_async_seek_table,
    spec_async_write_table, spec_future_table, spec_sink_table, spec_stream_table, stream_table,
    TraitSpec, TraitSpecModel,
};

verus! {

/// What one derivation call returns, as a function of the raw input and the
/// trait table alone: the rendered block, or the validation error with no
/// output.
pub open spec fn spec_derive(input: RawInputModel, t: TraitSpecModel) -> Result<
    Seq<char>,
    ValidationErrorModel,
> {
    match spec_extract(input) {
        Ok(d) => Ok(spec_render_impl(spec_synthesize(d, t))),
        Err(e) => Err(e),
    }
}

/// View of a derivation result, for stating the entry points' contracts.
pub open spec fn derive_result_view(r: Result<String, ValidationError>) -> Result<
    Seq<char>,
    ValidationErrorModel,
> {
    match r {
        Ok(s) => Ok(s@),
        Err(e) => Err(e@),
    }
}

proof fn lemma_extract_ok_nonempty(input: RawInputModel)
    requires
        spec_extract(input) is Ok,
    ensures
        spec_extract(input)->Ok_0.variants.len() >= 1,
{
}

fn derive_with_table(input: &RawInput, t: &TraitSpec) -> (r: Result<String, ValidationError>)
    ensures
        derive_result_view(r) == spec_derive(input@, t@),
{
    match extract(input) {
        Ok(d) => {
            proof {
                lemma_extract_ok_nonempty(input@);
            }
            let g = synthesize(&d, t);
            Ok(render_impl(&g))
        },
        Err(e) => Err(e),
    }
}

/// Derive the single-value-producer trait. Its path is fixed and takes no
/// resolution input.
pub fn derive_future(input: &RawInput) -> (r: Result<String, ValidationError>)
    ensures
        derive_result_view(r) == spec_derive(input@, spec_future_table()),
{
    let t = future_table();
    derive_with_table(input, &t)
}

/// Derive the multi-value-producer trait under the given resolution.
pub fn derive_stream(input: &RawInput, resolution: &CrateResolution) -> (r: Result<
    String,
    ValidationError,
>)
    ensures
        derive_result_view(r) == spec_derive(
            input@,
            spec_stream_table(spec_stream_trait_path(resolution@)),
        ),
{
    let path = crate::resolve::stream_trait_path(resolution);
    let t = stream_table(path.as_str());
    derive_with_table(input, &t)
}

/// Derive the multi-value-consumer trait under the given resolution.
pub fn derive_sink(input: &RawInput, resolution: &CrateResolution) -> (r: Result<
    String,
    ValidationError,
>)
    ensures
        derive_result_view(r) == spec_derive(
            input@,
            spec_sink_table(spec_sink_trait_path(resolution@)),
        ),
{
    let path = crate::resolve::sink_trait_path(resolution);
    let t = sink_table(path.as_str());
    derive_with_table(input, &t)
}

/// Derive the readable-bytes capability under the given resolution.
pub fn derive_async_read(input: &RawInput, resolution: &CrateResolution) -> (r: Result<
    String,
    ValidationError,
>)
    ensures
        derive_result_view(r) == spec_derive(
            input@,
            spec_async_read_table(spec_io_trait_path(resolution@, "AsyncRead"@)),
        ),
{
    let path = crate::resolve::io_trait_path(resolution, "AsyncRead");
    let t = async_read_table(path.as_str());
    derive_with_table(input, &t)
}

/// Derive the writable-bytes capability under the given resolution.
pub fn derive_async_write(input: &RawInput, resolution: &CrateResolution) -> (r: Result<
    String,
    ValidationError,
>)
    ensures
        derive_result_view(r) == spec_derive(
            input@,
            spec_async_write_table(spec_io_trait_path(resolution@, "AsyncWrite"@)),
        ),
{
    let path = crate::resolve::io_trait_path(resolution, "AsyncWrite");
    let t = async_write_table(path.as_str());
    derive_with_table(input, &t)
}

/// Derive the seekable capability under the given resolution.
pub fn derive_async_seek(input: &RawInput, resolution: &CrateResolution) -> (r: Result<
    String,
    ValidationError,
>)
    ensures
        derive_result_view(r) == spec_derive(
            input@,
            spec_async_seek_table(spec_io_trait_path(resolution@, "AsyncSeek"@)),
        ),
{
    let path = crate::resolve::io_trait_path(resolution, "AsyncSeek");
    let t = async_seek_table(path.as_str());
    derive_with_table(input, &t)
}

/// One trait request of a derivation invocation.
#[derive(Clone, Copy)]
pub enum TraitKind {
    Future,
    Stream,
    Sink,
    AsyncRead,
    AsyncWrite,
    AsyncSeek,
    AsyncBufRead,
}

/// The table a request selects, under the resolutions in force for the
/// resolvable families.
pub open spec fn spec_table_for(
    k: TraitKind,
    stream_res: crate::resolve::CrateResolutionModel,
    sink_res: crate::resolve::CrateResolutionModel,
    io_res: crate::resolve::CrateResolutionModel,
) -> TraitSpecModel {
    match k {
        TraitKind::Future => spec_future_table(),
        TraitKind::Stream => spec_stream_table(spec_stream_trait_path(stream_res)),
        TraitKind::Sink => spec_sink_table(spec_sink_trait_path(sink_res)),
        TraitKind::AsyncRead => spec_async_read_table(spec_io_trait_path(io_res, "AsyncRead"@)),
        TraitKind::AsyncWrite => spec_async_write_table(spec_io_trait_path(io_res, "AsyncWrite"@)),
        TraitKind::AsyncSeek => spec_async_seek_table(spec_io_trait_path(io_res, "AsyncSeek"@)),
        TraitKind::AsyncBufRead => spec_async_buf_read_table(
            spec_io_trait_path(io_res, "AsyncBufRead"@),
        ),
    }
}

fn table_for(
    k: TraitKind,
    stream_res: &CrateResolution,
    sink_res: &CrateResolution,
    io_res: &CrateResolution,
) -> (t: TraitSpec)
    ensures
        t@ == spec_table_for(k, stream_res@, sink_res@, io_res@),
{
    match k {
        TraitKind::Future => future_table(),
        TraitKind::Stream => {
            let path = crate::resolve::stream_trait_path(stream_res);
            stream_table(path.as_str())
        },
        TraitKind::Sink => {
            let path = crate::resolve::sink_trait_path(sink_res);
            sink_table(path.as_str())
        },
        TraitKind::AsyncRead => {
            let path = crate::resolve::io_trait_path(io_res, "AsyncRead");
            async_read_table(path.as_str())
        },
        TraitKind::AsyncWrite => {
            let path = crate::resolve::io_trait_path(io_res, "AsyncWrite");
            async_write_table(path.as_str())
        },
        TraitKind::AsyncSeek => {
            let path = crate::resolve::io_trait_path(io_res, "AsyncSeek");
            async_seek_table(path.as_str())
        },
        TraitKind::AsyncBufRead => {
            let path = crate::resolve::io_trait_path(io_res, "AsyncBufRead");
            async_buf_read_table(path.as_str())
        },
    }
}

/// The blocks of one invocation, one per request, in request order.
pub open spec fn spec_blocks(
    d: EnumDescriptorModel,
    requests: Seq<TraitKind>,
    stream_res: crate::resolve::CrateResolutionModel,
    sink_res: crate::resolve::CrateResolutionModel,
    io_res: crate::resolve::CrateResolutionModel,
) -> Seq<char>
    decreases requests.len(),
{
    if requests.len() == 0 {
        Seq::empty()
    } else {
        spec_blocks(d, requests.drop_last(), stream_res, sink_res, io_res) + spec_render_impl(
            spec_synthesize(d, spec_table_for(requests.last(), stream_res, sink_res, io_res)),
        )
    }
}

/// What one whole invocation returns: the requested blocks concatenated in
/// request order, or the single validation error with no output at all.
pub open spec fn spec_derive_traits(
    input: RawInputModel,
    requests: Seq<TraitKind>,
    stream_res: crate::resolve::CrateResolutionModel,
    sink_res: crate::resolve::CrateResolutionModel,
    io_res: crate::resolve::CrateResolutionModel,
) -> Result<Seq<char>, ValidationErrorModel> {
    match spec_extract(input) {
        Ok(d) => Ok(spec_blocks(d, requests, stream_res, sink_res, io_res)),
        Err(e) => Err(e),
    }
}

/// Run one whole invocation: validate the input once, then synthesize one
/// block per requested trait and concatenate them in request order.
pub fn derive_traits(
    input: &RawInput,
    requests: &Vec<TraitKind>,
    stream_res: &CrateResolution,
    sink_res: &CrateResolution,
    io_res: &CrateResolution,
) -> (r: Result<String, ValidationError>)
    ensures
        derive_result_view(r) == spec_derive_traits(
            input@,
            requests@,
            stream_res@,
            sink_res@,
            io_res@,
        ),
{
    let d = match extract(input) {
        Ok(d) => d,
        Err(e) => {
            return Err(e);
        },
    };
    proof {
        lemma_extract_ok_nonempty(input@);
    }
    let mut out = String::new();
    let mut i: usize = 0;
    while i < requests.len()
        invariant
            i <= requests.len(),
            d@ == spec_extract(input@)->Ok_0,
            d@.variants.len() >= 1,
            out@ == spec_blocks(
                d@,
                requests@.take(i as int),
                stream_res@,
                sink_res@,
                io_res@,
            ),
        decreases requests.len() - i,
    {
        let t = table_for(requests[i], stream_res, sink_res, io_res);
        let block = render_impl(&synthesize(&d, &t));
        out.append(block.as_str());
        proof {
            assert(requests@.take(i as int + 1).drop_last() =~= requests@.take(i as int));
            assert(out@ =~= spec_blocks(
                d@,
                requests@.take(i as int + 1),
                stream_res@,
                sink_res@,
                io_res@,
            ));
        }
        i = i + 1;
    }
    proof {
        assert(requests@.take(requests@.len() as int) =~= requests@);
    }
    Ok(out)
}

/// Derive the buffered-read capability under the given resolution.
pub fn derive_async_buf_read(input: &RawInput, resolution: &CrateResolution) -> (r: Result<
    String,
    ValidationError,
>)
    ensures
        derive_result_view(r) == spec_derive(
            input@,
            spec_async_buf_read_table(spec_io_trait_path(resolution@, "AsyncBufRead"@)),
        ),
{
    let path = crate::resolve::io_trait_path(resolution, "AsyncBufRead");
    let t = async_buf_read_table(path.as_str());
    derive_with_table(input, &t)
}

} // verus!
