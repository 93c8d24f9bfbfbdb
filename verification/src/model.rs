//! The library's own image of one parsed source file: exactly the facts the
//! detectors read from the syntax tree, as plain values. The parser boundary
//! fills these records; every decision taken on them is verified here.

use vstd::prelude::*;

verus! {

/// Mathematical image of an [`AttrDecl`].
#[verifier::ext_equal]
pub ghost struct AttrModel {
    pub name: Seq<char>,
    pub idents: Seq<Seq<char>>,
    pub has_args: bool,
}

/// One attribute on a declaration, reduced to what the detectors read.
pub struct AttrDecl {
    /// The attribute's path when it is a single identifier (`account`,
    /// `derive`); empty for a longer path.
    pub name: String,
    /// Identifiers listed in the attribute's parenthesised arguments; for a
    /// `derive` attribute, the derived trait names.
    pub idents: Vec<String>,
    /// Whether the attribute carries any argument tokens at all, as opposed
    /// to a bare marker.
    pub has_args: bool,
}

/// The views of a sequence of owned strings, element by element.
pub open spec fn string_views(s: Seq<String>) -> Seq<Seq<char>> {
    s.map_values(|x: String| x@)
}

impl View for AttrDecl {
    type V = AttrModel;

    open spec fn view(&self) -> AttrModel {
        AttrModel { name: self.name@, idents: string_views(self.idents@), has_args: self.has_args }
    }
}

/// The views of a sequence of attributes, element by element.
pub open spec fn attr_views(s: Seq<AttrDecl>) -> Seq<AttrModel> {
    s.map_values(|a: AttrDecl| a@)
}

/// Mathematical image of a [`FieldDecl`].
#[verifier::ext_equal]
pub ghost struct FieldModel {
    pub name: Seq<char>,
    pub line: int,
    pub type_ident: Seq<char>,
    pub attrs: Seq<AttrModel>,
}

/// One named field of a struct declaration. Anonymous tuple fields are never
/// recorded: the detectors do not inspect them.
pub struct FieldDecl {
    /// The field's identifier.
    pub name: String,
    /// 1-based source line of the field's identifier.
    pub line: usize,
    /// Trailing identifier of the field's declared type path; empty when the
    /// type is not a path.
    pub type_ident: String,
    /// The field's attributes.
    pub attrs: Vec<AttrDecl>,
}

impl View for FieldDecl {
    type V = FieldModel;

    open spec fn view(&self) -> FieldModel {
        FieldModel {
            name: self.name@,
            line: self.line as int,
            type_ident: self.type_ident@,
            attrs: attr_views(self.attrs@),
        }
    }
}

/// The views of a sequence of fields, element by element.
pub open spec fn field_views(s: Seq<FieldDecl>) -> Seq<FieldModel> {
    s.map_values(|f: FieldDecl| f@)
}

/// Mathematical image of a [`StructDecl`].
#[verifier::ext_equal]
pub ghost struct StructModel {
    pub name: Seq<char>,
    pub attrs: Seq<AttrModel>,
    pub fields: Seq<FieldModel>,
}

/// One struct-shaped declaration, in document order.
pub struct StructDecl {
    /// The struct's identifier.
    pub name: String,
    /// The struct's attributes, the derive markers among them.
    pub attrs: Vec<AttrDecl>,
    /// The struct's named fields, in declaration order.
    pub fields: Vec<FieldDecl>,
}

impl View for StructDecl {
    type V = StructModel;

    open spec fn view(&self) -> StructModel {
        StructModel {
            name: self.name@,
            attrs: attr_views(self.attrs@),
            fields: field_views(self.fields@),
        }
    }
}

/// The views of a sequence of struct declarations, element by element.
pub open spec fn struct_views(s: Seq<StructDecl>) -> Seq<StructModel> {
    s.map_values(|x: StructDecl| x@)
}

/// Mathematical image of a [`CallSite`].
#[verifier::ext_equal]
pub ghost struct CallModel {
    pub path: Seq<Seq<char>>,
    pub is_method: bool,
    pub line: int,
    pub enclosing_fn: Option<Seq<char>>,
}

/// One call expression, in traversal order: a free call whose callee is a
/// path expression, or a method call.
pub struct CallSite {
    /// Segment identifiers of the callee path; for a method call, the single
    /// method name.
    pub path: Vec<String>,
    /// Whether this is a method call rather than a free call.
    pub is_method: bool,
    /// 1-based source line of the callee name.
    pub line: usize,
    /// Name of the function declaration the call sits in, tracked as a
    /// single slot that nested declarations overwrite for their duration
    /// and clear on exit; `None` outside any tracked declaration.
    pub enclosing_fn: Option<String>,
}

impl View for CallSite {
    type V = CallModel;

    open spec fn view(&self) -> CallModel {
        CallModel {
            path: string_views(self.path@),
            is_method: self.is_method,
            line: self.line as int,
            enclosing_fn: match self.enclosing_fn {
                Option::Some(ref s) => Option::Some(s@),
                Option::None => Option::None,
            },
        }
    }
}

/// The views of a sequence of call sites, element by element.
pub open spec fn call_views(s: Seq<CallSite>) -> Seq<CallModel> {
    s.map_values(|c: CallSite| c@)
}

/// Mathematical image of a [`SourceFile`].
#[verifier::ext_equal]
pub ghost struct SourceModel {
    pub path: Seq<char>,
    pub text: Seq<char>,
    pub structs: Seq<StructModel>,
    pub calls: Seq<CallModel>,
}

/// One successfully parsed source file: its path label, its full raw text,
/// and the modelled declarations and call sites the detectors inspect.
pub struct SourceFile {
    /// Opaque path label carried into findings.
    pub path: String,
    /// The file's full raw text, character by character.
    pub text: Vec<char>,
    /// Struct-shaped declarations, in document order.
    pub structs: Vec<StructDecl>,
    /// Call sites, in traversal order.
    pub calls: Vec<CallSite>,
}

impl View for SourceFile {
    type V = SourceModel;

    open spec fn view(&self) -> SourceModel {
        SourceModel {
            path: self.path@,
            text: self.text@,
            structs: struct_views(self.structs@),
            calls: call_views(self.calls@),
        }
    }
}

/// Every field of the struct records a 1-based source line.
pub open spec fn spec_wf_struct(s: StructModel) -> bool {
    forall|i: int| 0 <= i < s.fields.len() ==> (#[trigger] s.fields[i]).line >= 1
}

/// The model is well formed: every recorded field and call line is a
/// 1-based position, as the parser boundary hands them in.
pub open spec fn spec_wf_source(f: SourceModel) -> bool {
    &&& forall|i: int| 0 <= i < f.structs.len() ==> spec_wf_struct(#[trigger] f.structs[i])
    &&& forall|i: int| 0 <= i < f.calls.len() ==> (#[trigger] f.calls[i]).line >= 1
}

/// A parse outcome is well formed when its file, if any, is.
pub open spec fn spec_wf_entry(e: Option<SourceModel>) -> bool {
    match e {
        Option::Some(m) => spec_wf_source(m),
        Option::None => true,
    }
}

/// Every parsed file of the run is well formed.
pub open spec fn spec_wf_files(files: Seq<Option<SourceModel>>) -> bool {
    forall|i: int| 0 <= i < files.len() ==> spec_wf_entry(#[trigger] files[i])
}

/// The views of a sequence of parse outcomes, element by element; a `None`
/// stands for a file that could not be read or parsed.
pub open spec fn file_views(s: Seq<Option<SourceFile>>) -> Seq<Option<SourceModel>> {
    s.map_values(
        |f: Option<SourceFile>|
            match f {
                Option::Some(sf) => Option::Some(sf@),
                Option::None => Option::None::<SourceModel>,
            },
    )
}

} // verus!
