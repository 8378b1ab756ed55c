use parse_context::attach::{with_context, ContextError};
use parse_context::context::{AnyContext, Context, ExpectedContext, OperationContext};
use parse_context::sink::{FmtError, TextSink, Write};

type Span = (usize, usize);

fn operation_of<C: Context>(c: &C) -> String {
    let mut w = TextSink::new();
    c.operation(&mut w).unwrap();
    w.as_str().to_string()
}

fn expected_of<C: Context>(c: &C) -> Result<String, FmtError> {
    let mut w = TextSink::new();
    c.expected(&mut w)?;
    Ok(w.as_str().to_string())
}

#[test]
fn label_context_has_generic_operation_and_label_as_expected() {
    let c: &'static str = "digit";
    assert_eq!(operation_of(&c), "context");
    assert!(c.has_expected());
    assert_eq!(expected_of(&c), Ok("digit".to_string()));
    let empty: &'static str = "";
    assert!(empty.has_expected());
    assert_eq!(expected_of(&empty), Ok(String::new()));
}

#[test]
fn expected_context_has_expected_only_when_non_empty() {
    let c = ExpectedContext { operation: "parse header", expected: "comma" };
    assert_eq!(operation_of(&c), "parse header");
    assert!(c.has_expected());
    assert_eq!(expected_of(&c), Ok("comma".to_string()));
    let bare = ExpectedContext { operation: "parse header", expected: "" };
    assert_eq!(operation_of(&bare), "parse header");
    assert!(!bare.has_expected());
}

#[test]
fn operation_context_expected_is_a_formatting_error() {
    let c = OperationContext("parse body");
    assert_eq!(operation_of(&c), "parse body");
    assert!(!c.has_expected());
    let mut w = TextSink::new();
    w.write_str("x").unwrap();
    assert_eq!(c.expected(&mut w), Err(FmtError));
    assert_eq!(w.as_str(), "x");
}

#[test]
fn downcast_round_trip_for_each_variant() {
    let label: &'static str = "digit";
    assert_eq!(label.as_any().downcast::<&'static str>(), Some(label));
    let pair = ExpectedContext { operation: "parse header", expected: "comma" };
    assert_eq!(pair.as_any().downcast::<ExpectedContext>(), Some(pair));
    let op = OperationContext("parse body");
    assert_eq!(op.as_any().downcast::<OperationContext>(), Some(op));
    let any = AnyContext::Operation(op);
    assert_eq!(any.as_any().downcast::<AnyContext>(), Some(any));
}

#[test]
fn downcast_to_another_kind_fails() {
    let pair = ExpectedContext { operation: "parse header", expected: "comma" };
    assert_eq!(pair.as_any().downcast::<OperationContext>(), None);
    assert_eq!(pair.as_any().downcast::<&'static str>(), None);
    assert_eq!(AnyContext::Label("digit").downcast::<ExpectedContext>(), None);
}

#[test]
fn success_passes_through_untouched() {
    let r: Result<u32, ContextError<Span>> =
        with_context((0, 4), OperationContext("parse number"), || Ok(42));
    assert!(matches!(r, Ok(42)));
}

#[test]
fn failure_gains_exactly_one_frame() {
    let r: Result<u32, ContextError<Span>> =
        with_context((5, 7), OperationContext("parse number"), || Err(ContextError::new()));
    let e = r.err().unwrap();
    assert_eq!(e.len(), 1);
    assert_eq!(*e.frame(0), ((5, 7), AnyContext::Operation(OperationContext("parse number"))));
}

#[test]
fn pair_context_on_failure() {
    let ctx = ExpectedContext { operation: "parse header", expected: "comma" };
    let r: Result<u32, ContextError<Span>> = with_context((10, 12), ctx, || Err(ContextError::new()));
    let e = r.err().unwrap();
    let (span, frame) = e.newest().unwrap();
    assert_eq!(*span, (10, 12));
    assert_eq!(operation_of(frame), "parse header");
    assert!(frame.has_expected());
    assert_eq!(expected_of(frame), Ok("comma".to_string()));
}

#[test]
fn operation_only_context_on_failure() {
    let r: Result<u32, ContextError<Span>> =
        with_context((0, 3), OperationContext("parse body"), || Err(ContextError::new()));
    let e = r.err().unwrap();
    let (_, frame) = e.newest().unwrap();
    assert!(!frame.has_expected());
    assert_eq!(expected_of(frame), Err(FmtError));
}

#[test]
fn nested_attachments_record_innermost_first() {
    let r: Result<u32, ContextError<Span>> = with_context((0, 5), OperationContext("parse number"), || {
        with_context((2, 3), OperationContext("parse digit"), || Err(ContextError::new()))
    });
    let e = r.err().unwrap();
    assert_eq!(e.len(), 2);
    assert_eq!(*e.frame(0), ((2, 3), AnyContext::Operation(OperationContext("parse digit"))));
    assert_eq!(*e.frame(1), ((0, 5), AnyContext::Operation(OperationContext("parse number"))));
    assert_eq!(operation_of(&e.newest().unwrap().1), "parse number");
}

#[test]
fn new_error_has_no_frames() {
    let e: ContextError<Span> = ContextError::new();
    assert_eq!(e.len(), 0);
    assert!(e.newest().is_none());
}

#[test]
fn full_sink_refuses_write_and_keeps_text() {
    let c = ExpectedContext { operation: "parse header", expected: "comma" };
    let mut w = TextSink::with_limit(14);
    assert_eq!(c.operation(&mut w), Ok(()));
    assert_eq!(c.expected(&mut w), Err(FmtError));
    assert_eq!(w.as_str(), "parse header");
    let mut exact = TextSink::with_limit(17);
    assert_eq!(c.operation(&mut exact), Ok(()));
    assert_eq!(c.expected(&mut exact), Ok(()));
    assert_eq!(exact.as_str(), "parse headercomma");
}

#[test]
fn zero_limit_sink_refuses_label_operation() {
    let label: &'static str = "digit";
    let mut w = TextSink::with_limit(0);
    assert_eq!(label.operation(&mut w), Err(FmtError));
    assert_eq!(w.as_str(), "");
    let mut empty_ok = TextSink::with_limit(0);
    assert_eq!(empty_ok.write_str(""), Ok(()));
}

#[test]
fn limit_counts_characters_not_bytes() {
    let mut w = TextSink::with_limit(3);
    assert_eq!(w.write_str("äöü"), Ok(()));
    assert_eq!(w.write_str("a"), Err(FmtError));
    assert_eq!(w.as_str(), "äöü");
}
