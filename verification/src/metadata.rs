//! Sheet classification and metadata.

use vstd::prelude::*;

verus! {

/// The kind of a sheet.
#[derive(Clone, Copy, Debug, PartialEq, Eq, Structural)]
pub enum SheetTypeEnum {
    /// A worksheet.
    WorkSheet,
    /// A dialog sheet.
    DialogSheet,
    /// A macro sheet.
    MacroSheet,
    /// A chart sheet.
    ChartSheet,
    /// A VBA module.
    Vba,
}

/// The visibility of a sheet.
#[derive(Clone, Copy, Debug, PartialEq, Eq, Structural)]
pub enum SheetVisibleEnum {
    /// Visible.
    Visible,
    /// Hidden.
    Hidden,
    /// Hidden and not togglable through the user interface; only some
    /// workbook formats support this state.
    VeryHidden,
}

/// Immutable record pairing a sheet's name with its kind and visibility.
#[derive(Debug)]
pub struct SheetMetadata {
    /// The sheet's name.
    pub name: String,
    /// The sheet's kind.
    pub typ: SheetTypeEnum,
    /// The sheet's visibility.
    pub visible: SheetVisibleEnum,
}

impl SheetMetadata {
    /// Builds the record from the three classifications.
    pub fn new(name: String, typ: SheetTypeEnum, visible: SheetVisibleEnum) -> (res: Self)
        ensures
            res.name == name,
            res.typ == typ,
            res.visible == visible,
    {
        SheetMetadata { name, typ, visible }
    }
}

impl PartialEq for SheetMetadata {
    /// Equality is structural: name, kind and visibility all equal.
    fn eq(&self, other: &Self) -> (res: bool) {
        self.name == other.name && self.typ == other.typ && self.visible == other.visible
    }
}

impl vstd::std_specs::cmp::PartialEqSpecImpl for SheetMetadata {
    open spec fn obeys_eq_spec() -> bool {
        true
    }

    open spec fn eq_spec(&self, other: &Self) -> bool {
        self.name@ == other.name@ && self.typ == other.typ && self.visible == other.visible
    }
}

impl Clone for SheetMetadata {
    /// A clone is the same record.
    fn clone(&self) -> (res: Self)
        ensures
            res == *self,
    {
        SheetMetadata { name: self.name.clone(), typ: self.typ, visible: self.visible }
    }
}

} // verus!
