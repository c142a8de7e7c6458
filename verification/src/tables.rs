//! Declarative trait specifications: the per-family policy tables.
//!
//! Each supported trait family is described by a `TraitSpec` value: the
//! resolved trait path, the generic parameters the implementation introduces
//! for the trait, the associated type names to unify across variants, and the
//! exact method signatures to forward. The tables are fixed per family; only
//! the trait path varies with module-path resolution.

use vstd::prelude::*;
use vstd::string::StringExecFns;

verus! {

/// How a forwarded method takes its receiver.
#[derive(Clone, Copy)]
pub enum Receiver {
    /// `&self`
    Shared,
    /// `&mut self`
    Exclusive,
    /// `self: ::core::pin::Pin<&mut Self>`
    Pinned,
}

/// One non-receiver parameter of a forwarded method.
pub struct Param {
    pub name: String,
    pub ty: String,
}

#[verifier::ext_equal]
pub struct ParamModel {
    pub name: Seq<char>,
    pub ty: Seq<char>,
}

impl View for Param {
    type V = ParamModel;

    open spec fn view(&self) -> ParamModel {
        ParamModel { name: self.name@, ty: self.ty@ }
    }
}

/// One method signature to forward, as the trait declares it.
pub struct MethodSig {
    pub name: String,
    /// A method-level lifetime tying the pinned receiver to the return type
    /// (used by the buffered-read fill method), if the trait declares one.
    pub lifetime: Option<String>,
    pub receiver: Receiver,
    pub params: Vec<Param>,
    /// The declared return type, or `None` for a method returning nothing.
    pub ret: Option<String>,
    pub is_unsafe: bool,
}

#[verifier::ext_equal]
pub struct MethodSigModel {
    pub name: Seq<char>,
    pub lifetime: Option<Seq<char>>,
    pub receiver: Receiver,
    pub params: Seq<ParamModel>,
    pub ret: Option<Seq<char>>,
    pub is_unsafe: bool,
}

pub open spec fn view_opt_string(o: Option<String>) -> Option<Seq<char>> {
    match o {
        Some(s) => Some(s@),
        None => None,
    }
}

impl View for MethodSig {
    type V = MethodSigModel;

    open spec fn view(&self) -> MethodSigModel {
        MethodSigModel {
            name: self.name@,
            lifetime: view_opt_string(self.lifetime),
            receiver: self.receiver,
            params: self.params@.map_values(|p: Param| p@),
            ret: view_opt_string(self.ret),
            is_unsafe: self.is_unsafe,
        }
    }
}

/// The declarative specification of one trait family.
pub struct TraitSpec {
    /// Fully qualified trait path, e.g. `::futures::sink::Sink`.
    pub path: String,
    /// Generic parameters the implementation introduces for the trait itself,
    /// e.g. the accepted item type of the consumer family.
    pub generics: Vec<String>,
    /// Associated type names the trait declares, unified across variants.
    pub assoc_types: Vec<String>,
    /// Method signatures to forward, in declaration order.
    pub methods: Vec<MethodSig>,
}

#[verifier::ext_equal]
pub struct TraitSpecModel {
    pub path: Seq<char>,
    pub generics: Seq<Seq<char>>,
    pub assoc_types: Seq<Seq<char>>,
    pub methods: Seq<MethodSigModel>,
}

impl View for TraitSpec {
    type V = TraitSpecModel;

    open spec fn view(&self) -> TraitSpecModel {
        TraitSpecModel {
            path: self.path@,
            generics: self.generics@.map_values(|s: String| s@),
            assoc_types: self.assoc_types@.map_values(|s: String| s@),
            methods: self.methods@.map_values(|m: MethodSig| m@),
        }
    }
}

/// The wake-context parameter every poll-shaped method takes.
pub open spec fn spec_cx() -> ParamModel {
    ParamModel { name: "cx"@, ty: "&mut ::core::task::Context<'_>"@ }
}

/// A pinned-receiver method without a method-level lifetime.
pub open spec fn spec_pinned_sig(name: Seq<char>, params: Seq<ParamModel>, ret: Seq<char>) -> MethodSigModel {
    MethodSigModel {
        name,
        lifetime: None,
        receiver: Receiver::Pinned,
        params,
        ret: Some(ret),
        is_unsafe: false,
    }
}

/// The single-value-producer table: one pinned poll method and one
/// associated output type. Its trait path is fixed.
pub open spec fn spec_future_table() -> TraitSpecModel {
    TraitSpecModel {
        path: "::core::future::Future"@,
        generics: Seq::empty(),
        assoc_types: seq!["Output"@],
        methods: seq![
            spec_pinned_sig("poll"@, seq![spec_cx()], "::core::task::Poll<Self::Output>"@),
        ],
    }
}

/// The multi-value-producer table: a pinned poll-next method and a
/// side-effect-free size-hint query, with one associated item type.
pub open spec fn spec_stream_table(path: Seq<char>) -> TraitSpecModel {
    TraitSpecModel {
        path,
        generics: Seq::empty(),
        assoc_types: seq!["Item"@],
        methods: seq![
            spec_pinned_sig(
                "poll_next"@,
                seq![spec_cx()],
                "::core::task::Poll<::core::option::Option<Self::Item>>"@,
            ),
            MethodSigModel {
                name: "size_hint"@,
                lifetime: None,
                receiver: Receiver::Shared,
                params: Seq::empty(),
                ret: Some("(usize, ::core::option::Option<usize>)"@),
                is_unsafe: false,
            },
        ],
    }
}

/// The multi-value-consumer table: readiness, submission, flush and close,
/// generic over the accepted item type, with one associated error type.
pub open spec fn spec_sink_table(path: Seq<char>) -> TraitSpecModel {
    TraitSpecModel {
        path,
        generics: seq!["__Item"@],
        assoc_types: seq!["Error"@],
        methods: seq![
            spec_pinned_sig(
                "poll_ready"@,
                seq![spec_cx()],
                "::core::task::Poll<::core::result::Result<(), Self::Error>>"@,
            ),
            spec_pinned_sig(
                "start_send"@,
                seq![ParamModel { name: "item"@, ty: "__Item"@ }],
                "::core::result::Result<(), Self::Error>"@,
            ),
            spec_pinned_sig(
                "poll_flush"@,
                seq![spec_cx()],
                "::core::task::Poll<::core::result::Result<(), Self::Error>>"@,
            ),
            spec_pinned_sig(
                "poll_close"@,
                seq![spec_cx()],
                "::core::task::Poll<::core::result::Result<(), Self::Error>>"@,
            ),
        ],
    }
}

/// The readable-bytes table: poll-read into a buffer, plus the vectored form.
pub open spec fn spec_async_read_table(path: Seq<char>) -> TraitSpecModel {
    TraitSpecModel {
        path,
        generics: Seq::empty(),
        assoc_types: Seq::empty(),
        methods: seq![
            spec_pinned_sig(
                "poll_read"@,
                seq![spec_cx(), ParamModel { name: "buf"@, ty: "&mut [u8]"@ }],
                "::core::task::Poll<::std::io::Result<usize>>"@,
            ),
            spec_pinned_sig(
                "poll_read_vectored"@,
                seq![
                    spec_cx(),
                    ParamModel { name: "bufs"@, ty: "&mut [::std::io::IoSliceMut<'_>]"@ },
                ],
                "::core::task::Poll<::std::io::Result<usize>>"@,
            ),
        ],
    }
}

/// The writable-bytes table: poll-write, its vectored form, flush and close.
pub open spec fn spec_async_write_table(path: Seq<char>) -> TraitSpecModel {
    TraitSpecModel {
        path,
        generics: Seq::empty(),
        assoc_types: Seq::empty(),
        methods: seq![
            spec_pinned_sig(
                "poll_write"@,
                seq![spec_cx(), ParamModel { name: "buf"@, ty: "&[u8]"@ }],
                "::core::task::Poll<::std::io::Result<usize>>"@,
            ),
            spec_pinned_sig(
                "poll_write_vectored"@,
                seq![
                    spec_cx(),
                    ParamModel { name: "bufs"@, ty: "&[::std::io::IoSlice<'_>]"@ },
                ],
                "::core::task::Poll<::std::io::Result<usize>>"@,
            ),
            spec_pinned_sig(
                "poll_flush"@,
                seq![spec_cx()],
                "::core::task::Poll<::std::io::Result<()>>"@,
            ),
            spec_pinned_sig(
                "poll_close"@,
                seq![spec_cx()],
                "::core::task::Poll<::std::io::Result<()>>"@,
            ),
        ],
    }
}

/// The seekable table: one poll-seek method taking a seek target.
pub open spec fn spec_async_seek_table(path: Seq<char>) -> TraitSpecModel {
    TraitSpecModel {
        path,
        generics: Seq::empty(),
        assoc_types: Seq::empty(),
        methods: seq![
            spec_pinned_sig(
                "poll_seek"@,
                seq![spec_cx(), ParamModel { name: "pos"@, ty: "::std::io::SeekFrom"@ }],
                "::core::task::Poll<::std::io::Result<u64>>"@,
            ),
        ],
    }
}

/// The buffered-read table: poll-fill-buffer, whose borrowed result is tied
/// to the pinned receiver's lifetime, plus a non-polling consume method.
pub open spec fn spec_async_buf_read_table(path: Seq<char>) -> TraitSpecModel {
    TraitSpecModel {
        path,
        generics: Seq::empty(),
        assoc_types: Seq::empty(),
        methods: seq![
            MethodSigModel {
                name: "poll_fill_buf"@,
                lifetime: Some("'__a"@),
                receiver: Receiver::Pinned,
                params: seq![spec_cx()],
                ret: Some("::core::task::Poll<::std::io::Result<&'__a [u8]>>"@),
                is_unsafe: false,
            },
            MethodSigModel {
                name: "consume"@,
                lifetime: None,
                receiver: Receiver::Pinned,
                params: seq![ParamModel { name: "amt"@, ty: "usize"@ }],
                ret: None,
                is_unsafe: false,
            },
        ],
    }
}

fn param(name: &str, ty: &str) -> (p: Param)
    ensures
        p@ == (ParamModel { name: name@, ty: ty@ }),
{
    Param { name: name.to_owned(), ty: ty.to_owned() }
}

fn cx_param() -> (p: Param)
    ensures
        p@ == spec_cx(),
{
    param("cx", "&mut ::core::task::Context<'_>")
}

fn pinned_sig(name: &str, params: Vec<Param>, ret: &str) -> (m: MethodSig)
    ensures
        m@ == spec_pinned_sig(name@, params@.map_values(|p: Param| p@), ret@),
{
    MethodSig {
        name: name.to_owned(),
        lifetime: None,
        receiver: Receiver::Pinned,
        params,
        ret: Some(ret.to_owned()),
        is_unsafe: false,
    }
}

fn pinned_poll_sig(name: &str, ret: &str) -> (m: MethodSig)
    ensures
        m@ == spec_pinned_sig(name@, seq![spec_cx()], ret@),
{
    let mut params: Vec<Param> = Vec::new();
    params.push(cx_param());
    let m = pinned_sig(name, params, ret);
    proof {
        assert(m@.params =~= seq![spec_cx()]);
    }
    m
}

fn pinned_poll_arg_sig(name: &str, arg_name: &str, arg_ty: &str, ret: &str) -> (m: MethodSig)
    ensures
        m@ == spec_pinned_sig(
            name@,
            seq![spec_cx(), ParamModel { name: arg_name@, ty: arg_ty@ }],
            ret@,
        ),
{
    let mut params: Vec<Param> = Vec::new();
    params.push(cx_param());
    params.push(param(arg_name, arg_ty));
    let m = pinned_sig(name, params, ret);
    proof {
        assert(m@.params =~= seq![spec_cx(), ParamModel { name: arg_name@, ty: arg_ty@ }]);
    }
    m
}

pub fn future_table() -> (t: TraitSpec)
    ensures
        t@ == spec_future_table(),
{
    let mut methods: Vec<MethodSig> = Vec::new();
    methods.push(pinned_poll_sig("poll", "::core::task::Poll<Self::Output>"));
    let mut assoc_types: Vec<String> = Vec::new();
    assoc_types.push("Output".to_owned());
    let t = TraitSpec {
        path: "::core::future::Future".to_owned(),
        generics: Vec::new(),
        assoc_types,
        methods,
    };
    proof {
        assert(t@ =~~= spec_future_table());
    }
    t
}

pub fn stream_table(path: &str) -> (t: TraitSpec)
    ensures
        t@ == spec_stream_table(path@),
{
    let mut methods: Vec<MethodSig> = Vec::new();
    methods.push(
        pinned_poll_sig("poll_next", "::core::task::Poll<::core::option::Option<Self::Item>>"),
    );
    methods.push(
        MethodSig {
            name: "size_hint".to_owned(),
            lifetime: None,
            receiver: Receiver::Shared,
            params: Vec::new(),
            ret: Some("(usize, ::core::option::Option<usize>)".to_owned()),
            is_unsafe: false,
        },
    );
    let mut assoc_types: Vec<String> = Vec::new();
    assoc_types.push("Item".to_owned());
    let t = TraitSpec { path: path.to_owned(), generics: Vec::new(), assoc_types, methods };
    proof {
        assert(t@ =~~= spec_stream_table(path@));
    }
    t
}

pub fn sink_table(path: &str) -> (t: TraitSpec)
    ensures
        t@ == spec_sink_table(path@),
{
    let mut methods: Vec<MethodSig> = Vec::new();
    methods.push(
        pinned_poll_sig(
            "poll_ready",
            "::core::task::Poll<::core::result::Result<(), Self::Error>>",
        ),
    );
    let mut send_params: Vec<Param> = Vec::new();
    send_params.push(param("item", "__Item"));
    let send_sig = pinned_sig("start_send", send_params, "::core::result::Result<(), Self::Error>");
    proof {
        assert(send_sig@.params =~= seq![ParamModel { name: "item"@, ty: "__Item"@ }]);
    }
    methods.push(send_sig);
    methods.push(
        pinned_poll_sig(
            "poll_flush",
            "::core::task::Poll<::core::result::Result<(), Self::Error>>",
        ),
    );
    methods.push(
        pinned_poll_sig(
            "poll_close",
            "::core::task::Poll<::core::result::Result<(), Self::Error>>",
        ),
    );
    let mut generics: Vec<String> = Vec::new();
    generics.push("__Item".to_owned());
    let mut assoc_types: Vec<String> = Vec::new();
    assoc_types.push("Error".to_owned());
    let t = TraitSpec { path: path.to_owned(), generics, assoc_types, methods };
    proof {
        assert(t@ =~~= spec_sink_table(path@));
    }
    t
}

pub fn async_read_table(path: &str) -> (t: TraitSpec)
    ensures
        t@ == spec_async_read_table(path@),
{
    let mut methods: Vec<MethodSig> = Vec::new();
    methods.push(
        pinned_poll_arg_sig(
            "poll_read",
            "buf",
            "&mut [u8]",
            "::core::task::Poll<::std::io::Result<usize>>",
        ),
    );
    methods.push(
        pinned_poll_arg_sig(
            "poll_read_vectored",
            "bufs",
            "&mut [::std::io::IoSliceMut<'_>]",
            "::core::task::Poll<::std::io::Result<usize>>",
        ),
    );
    let t = TraitSpec {
        path: path.to_owned(),
        generics: Vec::new(),
        assoc_types: Vec::new(),
        methods,
    };
    proof {
        assert(t@ =~~= spec_async_read_table(path@));
    }
    t
}

pub fn async_write_table(path: &str) -> (t: TraitSpec)
    ensures
        t@ == spec_async_write_table(path@),
{
    let mut methods: Vec<MethodSig> = Vec::new();
    methods.push(
        pinned_poll_arg_sig(
            "poll_write",
            "buf",
            "&[u8]",
            "::core::task::Poll<::std::io::Result<usize>>",
        ),
    );
    methods.push(
        pinned_poll_arg_sig(
            "poll_write_vectored",
            "bufs",
            "&[::std::io::IoSlice<'_>]",
            "::core::task::Poll<::std::io::Result<usize>>",
        ),
    );
    methods.push(pinned_poll_sig("poll_flush", "::core::task::Poll<::std::io::Result<()>>"));
    methods.push(pinned_poll_sig("poll_close", "::core::task::Poll<::std::io::Result<()>>"));
    let t = TraitSpec {
        path: path.to_owned(),
        generics: Vec::new(),
        assoc_types: Vec::new(),
        methods,
    };
    proof {
        assert(t@ =~~= spec_async_write_table(path@));
    }
    t
}

pub fn async_seek_table(path: &str) -> (t: TraitSpec)
    ensures
        t@ == spec_async_seek_table(path@),
{
    let mut methods: Vec<MethodSig> = Vec::new();
    methods.push(
        pinned_poll_arg_sig(
            "poll_seek",
            "pos",
            "::std::io::SeekFrom",
            "::core::task::Poll<::std::io::Result<u64>>",
        ),
    );
    let t = TraitSpec {
        path: path.to_owned(),
        generics: Vec::new(),
        assoc_types: Vec::new(),
        methods,
    };
    proof {
        assert(t@ =~~= spec_async_seek_table(path@));
    }
    t
}

pub fn async_buf_read_table(path: &str) -> (t: TraitSpec)
    ensures
        t@ == spec_async_buf_read_table(path@),
{
    let mut methods: Vec<MethodSig> = Vec::new();
    let mut fill_params: Vec<Param> = Vec::new();
    fill_params.push(cx_param());
    let fill_sig = MethodSig {
        name: "poll_fill_buf".to_owned(),
        lifetime: Some("'__a".to_owned()),
        receiver: Receiver::Pinned,
        params: fill_params,
        ret: Some("::core::task::Poll<::std::io::Result<&'__a [u8]>>".to_owned()),
        is_unsafe: false,
    };
    proof {
        assert(fill_sig@.params =~= seq![spec_cx()]);
    }
    methods.push(fill_sig);
    let mut consume_params: Vec<Param> = Vec::new();
    consume_params.push(param("amt", "usize"));
    let consume_sig = MethodSig {
        name: "consume".to_owned(),
        lifetime: None,
        receiver: Receiver::Pinned,
        params: consume_params,
        ret: None,
        is_unsafe: false,
    };
    proof {
        assert(consume_sig@.params =~= seq![ParamModel { name: "amt"@, ty: "usize"@ }]);
    }
    methods.push(consume_sig);
    let t = TraitSpec {
        path: path.to_owned(),
        generics: Vec::new(),
        assoc_types: Vec::new(),
        methods,
    };
    proof {
        assert(t@ =~~= spec_async_buf_read_table(path@));
    }
    t
}

} // verus!
