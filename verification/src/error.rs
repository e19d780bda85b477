//! Tagged parse failures: a terminal error class, a severity, the byte
//! offset at which the failure arose, and an outer-to-inner chain of
//! context labels naming the structures that were being decoded.

use vstd::prelude::*;

verus! {

/// The terminal failure classes of an image parse.
#[derive(Clone, Copy, Debug, PartialEq, Eq, Structural)]
pub enum ErrorKind {
    /// A magic tag did not match, the buffer ended before a field, or a
    /// field's content could not be decoded at all.
    Malformed,
    /// Structurally valid input that this decoder deliberately rejects,
    /// such as a PE32+ image or an unrecognized machine code.
    Unsupported,
    /// A cross-field validation gate failed: alignment rules, the declared
    /// optional-header size, or the ordering of sections.
    Inconsistent,
    /// A declared section data range exceeds the buffer bounds.
    OutOfBounds,
}

/// Whether a failure still permits trying a parse alternative, or must
/// abort the whole parse at once.
#[derive(Clone, Copy, Debug, PartialEq, Eq, Structural)]
pub enum Severity {
    /// A parse alternative may still be tried.
    Recoverable,
    /// The whole parse is aborted immediately.
    Fatal,
}

/// Human-readable labels attached to failures, naming the structure or the
/// validation gate inside which the failure arose, outermost first.
#[derive(Clone, Copy, Debug, PartialEq, Eq, Structural)]
pub enum ContextLabel {
    MZHeader,
    PEOffsetCheck,
    COFFHeader,
    MachineType,
    OptionalHeaderSizeCheck,
    COFFImageOptionalHeaderType,
    COFFImageStandardOptionalHeader,
    PE32MagicCheck,
    PE32OptionalHeader,
    PE32OptionalHeaderWindowsSpecific,
    ImageSubsystem,
    AlignmentCheck,
    DataDirectories,
    SectionHeader,
    SectionName,
    ValidateSectionHeader,
    SectionData,
    SectionOrdering,
    PE32Image,
}

/// A failed parse: what went wrong, whether an alternative may still be
/// tried, where in the buffer it went wrong, and inside which structures.
#[derive(Debug, PartialEq, Eq)]
pub struct ParseError {
    pub kind: ErrorKind,
    pub severity: Severity,
    pub offset: usize,
    /// Context labels, ordered from the outermost structure to the
    /// innermost one.
    pub context: Vec<ContextLabel>,
}

impl ParseError {
    /// A fresh error with an empty context chain.
    pub fn new(kind: ErrorKind, severity: Severity, offset: usize) -> (r: ParseError)
        ensures
            r.kind == kind,
            r.severity == severity,
            r.offset == offset,
            r.context@ == Seq::<ContextLabel>::empty(),
    {
        ParseError { kind, severity, offset, context: Vec::new() }
    }

    /// The fatal error reported when the buffer ends before a field.
    pub fn truncated(offset: usize) -> (r: ParseError)
        ensures
            r.kind == ErrorKind::Malformed,
            r.severity == Severity::Fatal,
            r.offset == offset,
            r.context@ == Seq::<ContextLabel>::empty(),
    {
        ParseError::new(ErrorKind::Malformed, Severity::Fatal, offset)
    }

    /// Prepends an outer context label to the chain.
    pub fn with_context(self, label: ContextLabel) -> (r: ParseError)
        ensures
            r.kind == self.kind,
            r.severity == self.severity,
            r.offset == self.offset,
            r.context@ == seq![label] + self.context@,
    {
        let mut e = self;
        e.context.insert(0, label);
        e
    }

    /// Commits the failure: after a structural commitment point no parse
    /// alternative may be tried, so the severity becomes fatal.
    pub fn into_fatal(self) -> (r: ParseError)
        ensures
            r.kind == self.kind,
            r.severity == Severity::Fatal,
            r.offset == self.offset,
            r.context@ == self.context@,
    {
        let mut e = self;
        e.severity = Severity::Fatal;
        e
    }
}

} // verus!
