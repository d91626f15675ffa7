//! From an offset in the processed output to the file and line it came from.

use super::serializer::SourceInfo;
use crate::common::reporting::Processed;
use crate::lists::{position, slot, slot_exists, views};
use crate::sqf::{Expression, Statement, Statements};
use std::ops::Range;
use vstd::prelude::*;

verus! {

/// The source information of `offset`: the offset itself, cut to 32 bits; the
/// index of the file of its mapping among the sources; and the line of its
/// mapping, cut to 16 bits. `None` where no mapping holds the offset, where
/// the file of the mapping is none of the sources, or where the index of the
/// file does not fit in 8 bits.
pub open spec fn source_info(processed: Processed, offset: usize) -> Option<SourceInfo> {
    match processed.mapping_index(offset) {
        None => None,
        Some(i) => {
            let mapping = processed.mappings@[i];
            let file = slot(views(processed.sources@), mapping.path@);
            if file < processed.sources@.len() && file <= u8::MAX {
                Some(
                    SourceInfo {
                        offset: (offset as int % 0x1_0000_0000) as u32,
                        file_index: file as u8,
                        file_line: (mapping.line as int % 0x1_0000) as u16,
                    },
                )
            } else {
                None
            }
        },
    }
}

/// Source information points into the sources: its file index is the first
/// place among the sources at which the path of the mapping stands.
pub proof fn source_info_points_into_the_sources(processed: Processed, offset: usize)
    ensures
        source_info(processed, offset) matches Some(info) ==> {
            &&& processed.mapping_index(offset) matches Some(i)
            &&& info.file_index < processed.sources@.len()
            &&& processed.sources@[info.file_index as int]@ == processed.mappings@[i].path@
            &&& processed.mappings@[i].covers(offset)
        },
{
    if let Some(i) = processed.mapping_index(offset) {
        let path = processed.mappings@[i].path@;
        slot_exists(views(processed.sources@), path);
    }
}

/// The source information of an offset that has one; an empty one stands
/// for an offset that has none.
pub open spec fn located(processed: Processed, offset: usize) -> SourceInfo {
    match source_info(processed, offset) {
        Some(info) => info,
        None => SourceInfo { offset: 0, file_index: 0, file_line: 0 },
    }
}

/// Looks up the source information of an offset in the processed output.
pub fn find_source(processed: &Processed, offset: usize) -> (r: Option<SourceInfo>)
    ensures
        r == source_info(*processed, offset),
{
    match processed.mapping(offset) {
        None => None,
        Some(mapping) => {
            let file = position(processed.sources(), &mapping.path);
            if file < processed.sources().len() && file <= 255 {
                Some(
                    SourceInfo {
                        offset: (offset as u64 % 0x1_0000_0000) as u32,
                        file_index: file as u8,
                        file_line: (mapping.line as u64 % 0x1_0000) as u16,
                    },
                )
            } else {
                None
            }
        },
    }
}

/// Converts a location in the processed output to a [`SourceInfo`]. The
/// location has to be one that the processed output can answer for.
pub fn location_to_source(processed: &Processed, location: &Range<usize>) -> (r: SourceInfo)
    requires
        source_info(*processed, location.start) is Some,
    ensures
        r == located(*processed, location.start),
{
    match find_source(processed, location.start) {
        Some(info) => info,
        None => SourceInfo { offset: 0, file_index: 0, file_line: 0 },
    }
}

impl Expression {
    /// Whether every span in the expression has source information.
    pub open spec fn mapped(self, processed: Processed) -> bool
        decreases self,
    {
        match self {
            Expression::Code(statements) => statements.mapped(processed),
            Expression::String(_) => true,
            Expression::Number(_) => true,
            Expression::Boolean(_) => true,
            Expression::Array(items, span) => {
                &&& source_info(processed, span.start) is Some
                &&& forall|i: int|
                    0 <= i < items@.len() ==> (#[trigger] items@[i]).mapped(processed)
            },
            Expression::NularCommand(_, span) => source_info(processed, span.start) is Some,
            Expression::UnaryCommand(_, operand, span) => {
                &&& source_info(processed, span.start) is Some
                &&& operand.mapped(processed)
            },
            Expression::BinaryCommand(_, left, right, span) => {
                &&& source_info(processed, span.start) is Some
                &&& left.mapped(processed)
                &&& right.mapped(processed)
            },
            Expression::Variable(_, span) => source_info(processed, span.start) is Some,
        }
    }
}

impl Statement {
    /// Whether every span in the statement has source information.
    pub open spec fn mapped(self, processed: Processed) -> bool
        decreases self,
    {
        match self {
            Statement::AssignGlobal(_, expression, span) => {
                &&& source_info(processed, span.start) is Some
                &&& expression.mapped(processed)
            },
            Statement::AssignLocal(_, expression, span) => {
                &&& source_info(processed, span.start) is Some
                &&& expression.mapped(processed)
            },
            Statement::Expression(expression) => expression.mapped(processed),
        }
    }
}

impl Statements {
    /// Whether every span in the statements has source information.
    pub open spec fn mapped(self, processed: Processed) -> bool
        decreases self,
    {
        forall|i: int|
            0 <= i < self.content@.len() ==> (#[trigger] self.content@[i]).mapped(processed)
    }
}

/// Whether every expression of a list has source information for every
/// span in it.
fn all_mapped(items: &Vec<Expression>, processed: &Processed) -> (b: bool)
    ensures
        b == forall|i: int| 0 <= i < items@.len() ==> (#[trigger] items@[i]).mapped(*processed),
    decreases items,
{
    let mut i: usize = 0;
    while i < items.len()
        invariant
            i <= items.len(),
            forall|k: int| 0 <= k < i ==> (#[trigger] items@[k]).mapped(*processed),
        decreases items.len() - i,
    {
        if !items[i].is_mapped(processed) {
            return false;
        }
        i += 1;
    }
    true
}

impl Expression {
    /// Checks that every span in the expression has source information.
    pub fn is_mapped(&self, processed: &Processed) -> (b: bool)
        ensures
            b == self.mapped(*processed),
        decreases self,
    {
        match self {
            Expression::Code(statements) => statements.is_mapped(processed),
            Expression::String(_) => true,
            Expression::Number(_) => true,
            Expression::Boolean(_) => true,
            Expression::Array(items, span) => find_source(processed, span.start).is_some()
                && all_mapped(items, processed),
            Expression::NularCommand(_, span) => find_source(processed, span.start).is_some(),
            Expression::UnaryCommand(_, operand, span) => find_source(
                processed,
                span.start,
            ).is_some() && operand.is_mapped(processed),
            Expression::BinaryCommand(_, left, right, span) => find_source(
                processed,
                span.start,
            ).is_some() && left.is_mapped(processed) && right.is_mapped(processed),
            Expression::Variable(_, span) => find_source(processed, span.start).is_some(),
        }
    }
}

impl Statement {
    /// Checks that every span in the statement has source information.
    pub fn is_mapped(&self, processed: &Processed) -> (b: bool)
        ensures
            b == self.mapped(*processed),
        decreases self,
    {
        match self {
            Statement::AssignGlobal(_, expression, span) => find_source(
                processed,
                span.start,
            ).is_some() && expression.is_mapped(processed),
            Statement::AssignLocal(_, expression, span) => find_source(
                processed,
                span.start,
            ).is_some() && expression.is_mapped(processed),
            Statement::Expression(expression) => expression.is_mapped(processed),
        }
    }
}

impl Statements {
    /// Checks that every span in the statements has source information.
    pub fn is_mapped(&self, processed: &Processed) -> (b: bool)
        ensures
            b == self.mapped(*processed),
        decreases self,
    {
        let mut i: usize = 0;
        while i < self.content.len()
            invariant
                i <= self.content.len(),
                forall|k: int| 0 <= k < i ==> (#[trigger] self.content@[k]).mapped(*processed),
            decreases self.content.len() - i,
        {
            if !self.content[i].is_mapped(processed) {
                return false;
            }
            i += 1;
        }
        true
    }
}

} // verus!
