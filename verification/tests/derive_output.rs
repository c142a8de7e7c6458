use futures_enum::descriptor::{GenericParam, RawBody, RawInput, RawVariant};
use futures_enum::resolve::{crate_name, default_crate_name, CrateResolution, FoundPackage};
use futures_enum::render::render_impl;
use futures_enum::synth::synthesize;
use futures_enum::tables::{MethodSig, Receiver, TraitSpec};
use futures_enum::{
    derive_async_buf_read, derive_async_read, derive_async_seek, derive_async_write,
    derive_future, derive_sink, derive_stream, derive_traits, extract, TraitKind,
};

fn gp(name: &str) -> GenericParam {
    GenericParam { decl: name.to_string(), name: name.to_string() }
}

fn variant(name: &str, payload: &str) -> RawVariant {
    RawVariant {
        name: name.to_string(),
        field_types: vec![payload.to_string()],
        fields_named: false,
    }
}

fn either() -> RawInput {
    RawInput {
        name: "Either".to_string(),
        generics: vec![gp("A"), gp("B")],
        body: RawBody::Enum(vec![variant("A", "A"), variant("B", "B")]),
    }
}

#[test]
fn future_either_exact_output() {
    let out = derive_future(&either()).unwrap();
    let expected = "#[allow(unsafe_code)]\n\
impl<A, B> ::core::future::Future for Either<A, B>\n\
where\n\
\x20   A: ::core::future::Future,\n\
\x20   B: ::core::future::Future<Output = <A as ::core::future::Future>::Output>,\n\
{\n\
\x20   type Output = <A as ::core::future::Future>::Output;\n\
\x20   #[inline]\n\
\x20   fn poll(self: ::core::pin::Pin<&mut Self>, cx: &mut ::core::task::Context<'_>) -> ::core::task::Poll<Self::Output> {\n\
\x20       unsafe {\n\
\x20           match self.get_unchecked_mut() {\n\
\x20               Either::A(x) => ::core::future::Future::poll(::core::pin::Pin::new_unchecked(x), cx),\n\
\x20               Either::B(x) => ::core::future::Future::poll(::core::pin::Pin::new_unchecked(x), cx),\n\
\x20           }\n\
\x20       }\n\
\x20   }\n\
}\n";
    assert_eq!(out, expected);
}

#[test]
fn future_one_arm_per_variant_in_order() {
    let input = RawInput {
        name: "Three".to_string(),
        generics: vec![gp("A"), gp("B"), gp("C")],
        body: RawBody::Enum(vec![
            variant("First", "A"),
            variant("Second", "B"),
            variant("Third", "C"),
        ]),
    };
    let out = derive_future(&input).unwrap();
    let first = out.find("Three::First(x)").unwrap();
    let second = out.find("Three::Second(x)").unwrap();
    let third = out.find("Three::Third(x)").unwrap();
    assert!(first < second && second < third);
    assert_eq!(out.matches("Three::First(x)").count(), 1);
    assert_eq!(out.matches("Three::Second(x)").count(), 1);
    assert_eq!(out.matches("Three::Third(x)").count(), 1);
}

#[test]
fn future_repeated_synthesis_is_deterministic() {
    let a = derive_future(&either()).unwrap();
    let b = derive_future(&either()).unwrap();
    assert_eq!(a, b);
}

#[test]
fn unification_is_asymmetric_under_swap() {
    let forward = derive_future(&either()).unwrap();
    let swapped_input = RawInput {
        name: "Either".to_string(),
        generics: vec![gp("A"), gp("B")],
        body: RawBody::Enum(vec![variant("B", "B"), variant("A", "A")]),
    };
    let swapped = derive_future(&swapped_input).unwrap();
    assert!(forward.contains(
        "B: ::core::future::Future<Output = <A as ::core::future::Future>::Output>"
    ));
    assert!(!forward.contains("<B as ::core::future::Future>::Output>"));
    assert!(swapped.contains(
        "A: ::core::future::Future<Output = <B as ::core::future::Future>::Output>"
    ));
    assert!(!swapped.contains("<A as ::core::future::Future>::Output>"));
}

#[test]
fn stream_default_path_and_methods() {
    let res = default_crate_name();
    let out = derive_stream(&either(), &res).unwrap();
    assert!(out.contains("impl<A, B> ::futures::stream::Stream for Either<A, B>"));
    assert!(out.contains("type Item = <A as ::futures::stream::Stream>::Item;"));
    assert!(out.contains(
        "fn poll_next(self: ::core::pin::Pin<&mut Self>, cx: &mut ::core::task::Context<'_>) -> ::core::task::Poll<::core::option::Option<Self::Item>>"
    ));
    assert!(out.contains("fn size_hint(&self) -> (usize, ::core::option::Option<usize>)"));
    // The borrowed-receiver query dispatches on a plain match, not a pin
    // projection.
    assert!(out.contains("Either::A(x) => ::futures::stream::Stream::size_hint(x),"));
    assert_eq!(out.matches("fn poll_next").count(), 1);
    assert_eq!(out.matches("fn size_hint").count(), 1);
}

#[test]
fn sink_default_path_exact_output() {
    let input = RawInput {
        name: "Enum".to_string(),
        generics: vec![gp("A"), gp("B")],
        body: RawBody::Enum(vec![variant("A", "A"), variant("B", "B")]),
    };
    let res = default_crate_name();
    let out = derive_sink(&input, &res).unwrap();
    let expected = "#[allow(unsafe_code)]\n\
impl<A, B, __Item> ::futures::sink::Sink<__Item> for Enum<A, B>\n\
where\n\
\x20   A: ::futures::sink::Sink<__Item>,\n\
\x20   B: ::futures::sink::Sink<__Item, Error = <A as ::futures::sink::Sink<__Item>>::Error>,\n\
{\n\
\x20   type Error = <A as ::futures::sink::Sink<__Item>>::Error;\n\
\x20   #[inline]\n\
\x20   fn poll_ready(self: ::core::pin::Pin<&mut Self>, cx: &mut ::core::task::Context<'_>) -> ::core::task::Poll<::core::result::Result<(), Self::Error>> {\n\
\x20       unsafe {\n\
\x20           match self.get_unchecked_mut() {\n\
\x20               Enum::A(x) => ::futures::sink::Sink::poll_ready(::core::pin::Pin::new_unchecked(x), cx),\n\
\x20               Enum::B(x) => ::futures::sink::Sink::poll_ready(::core::pin::Pin::new_unchecked(x), cx),\n\
\x20           }\n\
\x20       }\n\
\x20   }\n\
\x20   #[inline]\n\
\x20   fn start_send(self: ::core::pin::Pin<&mut Self>, item: __Item) -> ::core::result::Result<(), Self::Error> {\n\
\x20       unsafe {\n\
\x20           match self.get_unchecked_mut() {\n\
\x20               Enum::A(x) => ::futures::sink::Sink::start_send(::core::pin::Pin::new_unchecked(x), item),\n\
\x20               Enum::B(x) => ::futures::sink::Sink::start_send(::core::pin::Pin::new_unchecked(x), item),\n\
\x20           }\n\
\x20       }\n\
\x20   }\n\
\x20   #[inline]\n\
\x20   fn poll_flush(self: ::core::pin::Pin<&mut Self>, cx: &mut ::core::task::Context<'_>) -> ::core::task::Poll<::core::result::Result<(), Self::Error>> {\n\
\x20       unsafe {\n\
\x20           match self.get_unchecked_mut() {\n\
\x20               Enum::A(x) => ::futures::sink::Sink::poll_flush(::core::pin::Pin::new_unchecked(x), cx),\n\
\x20               Enum::B(x) => ::futures::sink::Sink::poll_flush(::core::pin::Pin::new_unchecked(x), cx),\n\
\x20           }\n\
\x20       }\n\
\x20   }\n\
\x20   #[inline]\n\
\x20   fn poll_close(self: ::core::pin::Pin<&mut Self>, cx: &mut ::core::task::Context<'_>) -> ::core::task::Poll<::core::result::Result<(), Self::Error>> {\n\
\x20       unsafe {\n\
\x20           match self.get_unchecked_mut() {\n\
\x20               Enum::A(x) => ::futures::sink::Sink::poll_close(::core::pin::Pin::new_unchecked(x), cx),\n\
\x20               Enum::B(x) => ::futures::sink::Sink::poll_close(::core::pin::Pin::new_unchecked(x), cx),\n\
\x20           }\n\
\x20       }\n\
\x20   }\n\
}\n";
    assert_eq!(out, expected);
}

#[test]
fn sink_split_out_crate_sits_at_root() {
    let res = crate_name(Some(FoundPackage {
        name: "futures_sink".to_string(),
        original: Some("futures-sink".to_string()),
    }));
    let out = derive_sink(&either(), &res).unwrap();
    assert!(out.contains("::futures_sink::Sink<__Item> for Either<A, B>"));
    assert!(!out.contains("::sink::Sink"));
}

#[test]
fn sink_renamed_full_crate_keeps_module() {
    let res = CrateResolution {
        name: "futures03".to_string(),
        original: Some("futures".to_string()),
    };
    let out = derive_sink(&either(), &res).unwrap();
    assert!(out.contains("::futures03::sink::Sink<__Item>"));
}

#[test]
fn async_read_default_path_and_methods() {
    let res = default_crate_name();
    let out = derive_async_read(&either(), &res).unwrap();
    assert!(out.contains("impl<A, B> ::futures::io::AsyncRead for Either<A, B>"));
    assert!(out.contains(
        "fn poll_read(self: ::core::pin::Pin<&mut Self>, cx: &mut ::core::task::Context<'_>, buf: &mut [u8]) -> ::core::task::Poll<::std::io::Result<usize>>"
    ));
    assert!(out.contains(
        "fn poll_read_vectored(self: ::core::pin::Pin<&mut Self>, cx: &mut ::core::task::Context<'_>, bufs: &mut [::std::io::IoSliceMut<'_>]) -> ::core::task::Poll<::std::io::Result<usize>>"
    ));
    assert!(out.contains(
        "Either::A(x) => ::futures::io::AsyncRead::poll_read(::core::pin::Pin::new_unchecked(x), cx, buf),"
    ));
    assert!(!out.contains("type "));
}

#[test]
fn async_read_split_out_crate_sits_at_root() {
    let res = crate_name(Some(FoundPackage {
        name: "fio".to_string(),
        original: Some("futures-io".to_string()),
    }));
    let out = derive_async_read(&either(), &res).unwrap();
    assert!(out.contains("impl<A, B> ::fio::AsyncRead for Either<A, B>"));
    assert!(!out.contains("::io::AsyncRead"));
}

#[test]
fn async_write_has_all_four_methods_once() {
    let res = default_crate_name();
    let out = derive_async_write(&either(), &res).unwrap();
    assert!(out.contains("impl<A, B> ::futures::io::AsyncWrite for Either<A, B>"));
    assert_eq!(out.matches("fn poll_write(").count(), 1);
    assert_eq!(out.matches("fn poll_write_vectored(").count(), 1);
    assert_eq!(out.matches("fn poll_flush(").count(), 1);
    assert_eq!(out.matches("fn poll_close(").count(), 1);
    assert!(out.contains("buf: &[u8]"));
    assert!(out.contains("bufs: &[::std::io::IoSlice<'_>]"));
    assert!(out.contains("::core::task::Poll<::std::io::Result<()>>"));
}

#[test]
fn async_seek_forwards_the_seek_target() {
    let res = default_crate_name();
    let out = derive_async_seek(&either(), &res).unwrap();
    assert!(out.contains("impl<A, B> ::futures::io::AsyncSeek for Either<A, B>"));
    assert!(out.contains(
        "fn poll_seek(self: ::core::pin::Pin<&mut Self>, cx: &mut ::core::task::Context<'_>, pos: ::std::io::SeekFrom) -> ::core::task::Poll<::std::io::Result<u64>>"
    ));
    assert!(out.contains(
        "Either::B(x) => ::futures::io::AsyncSeek::poll_seek(::core::pin::Pin::new_unchecked(x), cx, pos),"
    ));
}

#[test]
fn async_buf_read_ties_fill_to_receiver_lifetime() {
    let res = default_crate_name();
    let out = derive_async_buf_read(&either(), &res).unwrap();
    assert!(out.contains("impl<A, B> ::futures::io::AsyncBufRead for Either<A, B>"));
    assert!(out.contains(
        "fn poll_fill_buf<'__a>(self: ::core::pin::Pin<&'__a mut Self>, cx: &mut ::core::task::Context<'_>) -> ::core::task::Poll<::std::io::Result<&'__a [u8]>>"
    ));
    assert!(out.contains("fn consume(self: ::core::pin::Pin<&mut Self>, amt: usize) {"));
    assert!(out.contains(
        "Either::A(x) => ::futures::io::AsyncBufRead::consume(::core::pin::Pin::new_unchecked(x), amt),"
    ));
}

#[test]
fn pinned_dispatch_never_extracts_owned_payload() {
    let res = default_crate_name();
    let outputs = vec![
        derive_future(&either()).unwrap(),
        derive_stream(&either(), &res).unwrap(),
        derive_sink(&either(), &res).unwrap(),
        derive_async_read(&either(), &res).unwrap(),
        derive_async_write(&either(), &res).unwrap(),
        derive_async_seek(&either(), &res).unwrap(),
        derive_async_buf_read(&either(), &res).unwrap(),
    ];
    for out in outputs {
        // Every pinned dispatch narrows through the projection and re-pins
        // the payload in place; nothing dereferences a payload out.
        assert!(!out.contains("*x"));
        let projections = out.matches("match self.get_unchecked_mut()").count();
        let repins = out.matches("::core::pin::Pin::new_unchecked(x)").count();
        assert!(projections >= 1);
        // Two variants: every projected match has exactly two re-pinned arms.
        assert_eq!(repins, 2 * projections);
    }
}

#[test]
fn invocation_concatenates_blocks_in_request_order() {
    let res = default_crate_name();
    let requests = vec![TraitKind::Future, TraitKind::Stream, TraitKind::AsyncSeek];
    let combined = derive_traits(&either(), &requests, &res, &res, &res).unwrap();
    let mut expected = derive_future(&either()).unwrap();
    expected.push_str(&derive_stream(&either(), &res).unwrap());
    expected.push_str(&derive_async_seek(&either(), &res).unwrap());
    assert_eq!(combined, expected);
    let empty = derive_traits(&either(), &vec![], &res, &res, &res).unwrap();
    assert_eq!(empty, "");
}

#[test]
fn generics_without_payload_reference_are_kept() {
    // A concrete payload next to a generic one: the impl stays generic over
    // the enum's declared parameters and bounds both payload types.
    let input = RawInput {
        name: "Mixed".to_string(),
        generics: vec![gp("T")],
        body: RawBody::Enum(vec![
            variant("Gen", "T"),
            variant("Fixed", "MyFut"),
        ]),
    };
    let out = derive_future(&input).unwrap();
    assert!(out.contains("impl<T> ::core::future::Future for Mixed<T>"));
    assert!(out.contains("    T: ::core::future::Future,"));
    assert!(out.contains(
        "    MyFut: ::core::future::Future<Output = <T as ::core::future::Future>::Output>,"
    ));
}

#[test]
fn bounded_generic_declaration_is_preserved() {
    let input = RawInput {
        name: "Two".to_string(),
        generics: vec![
            GenericParam { decl: "A: Unpin".to_string(), name: "A".to_string() },
            gp("B"),
        ],
        body: RawBody::Enum(vec![variant("A", "A"), variant("B", "B")]),
    };
    let out = derive_future(&input).unwrap();
    assert!(out.contains("impl<A: Unpin, B> ::core::future::Future for Two<A, B>"));
}

#[test]
fn single_variant_enum_derives() {
    let input = RawInput {
        name: "One".to_string(),
        generics: vec![gp("A")],
        body: RawBody::Enum(vec![variant("Only", "A")]),
    };
    let out = derive_future(&input).unwrap();
    assert!(out.contains("impl<A> ::core::future::Future for One<A>"));
    assert!(out.contains("where\n    A: ::core::future::Future,\n"));
    assert_eq!(out.matches("One::Only(x)").count(), 1);
    // A single variant needs no unification constraint in its bound; only
    // the associated type declaration names the payload's output type.
    assert!(!out.contains("Future<Output ="));
    assert!(out.contains("    type Output = <A as ::core::future::Future>::Output;"));
}

#[test]
fn exclusive_and_unsafe_signatures_render() {
    let d = extract(&either()).unwrap();
    let t = TraitSpec {
        path: "::demo::Codec".to_string(),
        generics: vec![],
        assoc_types: vec![],
        methods: vec![
            MethodSig {
                name: "reset".to_string(),
                lifetime: None,
                receiver: Receiver::Exclusive,
                params: vec![],
                ret: None,
                is_unsafe: false,
            },
            MethodSig {
                name: "raw_len".to_string(),
                lifetime: None,
                receiver: Receiver::Shared,
                params: vec![],
                ret: Some("usize".to_string()),
                is_unsafe: true,
            },
        ],
    };
    let out = render_impl(&synthesize(&d, &t));
    assert!(out.contains("impl<A, B> ::demo::Codec for Either<A, B>"));
    assert!(out.contains("fn reset(&mut self) {"));
    assert!(out.contains("unsafe fn raw_len(&self) -> usize {"));
    // Borrowed receivers dispatch on a plain match without a pin projection.
    assert!(out.contains("Either::A(x) => ::demo::Codec::reset(x),"));
    assert!(!out.contains("get_unchecked_mut"));
}

#[test]
fn plain_enum_without_generics_derives() {
    let input = RawInput {
        name: "Fixed".to_string(),
        generics: vec![],
        body: RawBody::Enum(vec![variant("A", "FutA"), variant("B", "FutB")]),
    };
    let out = derive_future(&input).unwrap();
    assert!(out.contains("impl ::core::future::Future for Fixed\nwhere"));
    assert!(out.contains("    FutA: ::core::future::Future,"));
    assert!(out.contains(
        "    FutB: ::core::future::Future<Output = <FutA as ::core::future::Future>::Output>,"
    ));
}
