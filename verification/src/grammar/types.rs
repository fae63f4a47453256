//! Types, limits, descriptors and names.

use vstd::prelude::*;
use vstd::utf8::{decode_utf8, valid_utf8};
use crate::codes;
use crate::cursor::{spec_byte, spec_bytes, Halt, Parsed};
use crate::error::ErrorKind;
use crate::grammar::integers::spec_u32;
use crate::module::{
    ElemType, ExportView, FuncTypeView, GlobalType, ImpExportDesc, ImportView, Limits, MemType,
    Mut, ResultType, TableType, TypeIdx, ValType,
};
use crate::vector::spec_vector;

verus! {

/// The value type that a tag byte stands for.
pub open spec fn val_type_of(tag: u8) -> Option<ValType> {
    if tag == codes::types::I32 {
        Some(ValType::I32)
    } else if tag == codes::types::I64 {
        Some(ValType::I64)
    } else if tag == codes::types::F32 {
        Some(ValType::F32)
    } else if tag == codes::types::F64 {
        Some(ValType::F64)
    } else {
        None
    }
}

/// A value type: one tag byte.
pub open spec fn spec_val_type(s: Seq<u8>, pos: nat) -> Parsed<ValType> {
    match spec_byte(s, pos) {
        Err(h) => Err(h),
        Ok((tag, next)) => match val_type_of(tag) {
            Some(t) => Ok((t, next)),
            None => Err(Halt::rejected(ErrorKind::InvalidValueType(tag), next)),
        },
    }
}

/// A block type: the tag of the empty result, or a value type.
pub open spec fn spec_block_type(s: Seq<u8>, pos: nat) -> Parsed<ResultType> {
    match spec_byte(s, pos) {
        Err(h) => Err(h),
        Ok((tag, next)) => if tag == codes::types::RESULT {
            Ok((ResultType(None), next))
        } else {
            match val_type_of(tag) {
                Some(t) => Ok((ResultType(Some(t)), next)),
                None => Err(Halt::rejected(ErrorKind::InvalidBlockType(tag), next)),
            }
        },
    }
}

/// Limits: a flag, a minimum and, where the flag says so, a maximum.
pub open spec fn spec_limits(s: Seq<u8>, pos: nat) -> Parsed<Limits> {
    match spec_byte(s, pos) {
        Err(h) => Err(h),
        Ok((flag, next)) => if flag == codes::types::LIMIT_NO_MAX {
            match spec_u32(s, next) {
                Err(h) => Err(h),
                Ok((min, end)) => Ok((Limits { min, max: None }, end)),
            }
        } else if flag == codes::types::LIMIT_MAX {
            match spec_u32(s, next) {
                Err(h) => Err(h),
                Ok((min, mid)) => match spec_u32(s, mid) {
                    Err(h) => Err(h),
                    Ok((max, end)) => Ok((Limits { min, max: Some(max) }, end)),
                },
            }
        } else {
            Err(Halt::rejected(ErrorKind::InvalidLimitsFlag(flag), next))
        },
    }
}

/// A table type: the element type, which must be the function reference, then
/// limits.
pub open spec fn spec_table_type(s: Seq<u8>, pos: nat) -> Parsed<TableType> {
    match spec_byte(s, pos) {
        Err(h) => Err(h),
        Ok((tag, next)) => if tag == codes::types::FUNCREF {
            match spec_limits(s, next) {
                Err(h) => Err(h),
                Ok((limits, end)) => Ok((TableType(limits, ElemType::FuncRef), end)),
            }
        } else {
            Err(Halt::rejected(ErrorKind::InvalidElementType(tag), next))
        },
    }
}

/// A memory type: limits.
pub open spec fn spec_mem_type(s: Seq<u8>, pos: nat) -> Parsed<MemType> {
    match spec_limits(s, pos) {
        Err(h) => Err(h),
        Ok((limits, end)) => Ok((MemType(limits), end)),
    }
}

/// A global type: a value type, then a mutability flag.
pub open spec fn spec_global_type(s: Seq<u8>, pos: nat) -> Parsed<GlobalType> {
    match spec_val_type(s, pos) {
        Err(h) => Err(h),
        Ok((t, next)) => match spec_byte(s, next) {
            Err(h) => Err(h),
            Ok((flag, end)) => if flag == codes::types::CONST {
                Ok((GlobalType(Mut::Const, t), end))
            } else if flag == codes::types::VAR {
                Ok((GlobalType(Mut::Var, t), end))
            } else {
                Err(Halt::rejected(ErrorKind::InvalidMutability(flag), end))
            },
        },
    }
}

/// An import or export descriptor: a tag, then what the tag announces.
pub open spec fn spec_imp_export_description(s: Seq<u8>, pos: nat) -> Parsed<ImpExportDesc> {
    match spec_byte(s, pos) {
        Err(h) => Err(h),
        Ok((tag, next)) => if tag == codes::im_export_desc::TYPE {
            match spec_u32(s, next) {
                Err(h) => Err(h),
                Ok((index, end)) => Ok((ImpExportDesc::Func(TypeIdx(index)), end)),
            }
        } else if tag == codes::im_export_desc::TABLE {
            match spec_table_type(s, next) {
                Err(h) => Err(h),
                Ok((t, end)) => Ok((ImpExportDesc::Table(t), end)),
            }
        } else if tag == codes::im_export_desc::MEM {
            match spec_mem_type(s, next) {
                Err(h) => Err(h),
                Ok((t, end)) => Ok((ImpExportDesc::Mem(t), end)),
            }
        } else if tag == codes::im_export_desc::GLOBAL {
            match spec_global_type(s, next) {
                Err(h) => Err(h),
                Ok((t, end)) => Ok((ImpExportDesc::Global(t), end)),
            }
        } else {
            Err(Halt::rejected(ErrorKind::InvalidDescriptor(tag), next))
        },
    }
}

/// A name: a length in bytes, then that many bytes of valid UTF-8.
pub open spec fn spec_string(s: Seq<u8>, pos: nat) -> Parsed<Seq<char>> {
    match spec_u32(s, pos) {
        Err(h) => Err(h),
        Ok((length, next)) => match spec_bytes(s, next, length as nat) {
            Err(h) => Err(h),
            Ok((payload, end)) => if valid_utf8(payload) {
                Ok((decode_utf8(payload), end))
            } else {
                Err(Halt::rejected(ErrorKind::InvalidUtf8, end))
            },
        },
    }
}

/// A function type: the marker, the parameter types, the result types.
pub open spec fn spec_func_type(s: Seq<u8>, pos: nat) -> Parsed<FuncTypeView> {
    match spec_byte(s, pos) {
        Err(h) => Err(h),
        Ok((marker, next)) => if marker != codes::types::FUNCTION {
            Err(Halt::rejected(ErrorKind::InvalidTypeMarker(marker), next))
        } else {
            match spec_vector::<ValType>(s, next) {
                Err(h) => Err(h),
                Ok((params, mid)) => match spec_vector::<ValType>(s, mid) {
                    Err(h) => Err(h),
                    Ok((results, end)) => Ok((FuncTypeView { params, results }, end)),
                },
            }
        },
    }
}

/// An import: the name of a module, a name in it, a descriptor.
pub open spec fn spec_import(s: Seq<u8>, pos: nat) -> Parsed<ImportView> {
    match spec_string(s, pos) {
        Err(h) => Err(h),
        Ok((module, next)) => match spec_string(s, next) {
            Err(h) => Err(h),
            Ok((name, mid)) => match spec_imp_export_description(s, mid) {
                Err(h) => Err(h),
                Ok((desc, end)) => Ok((ImportView { module, name, desc }, end)),
            },
        },
    }
}

/// An export: a name, a descriptor.
pub open spec fn spec_export(s: Seq<u8>, pos: nat) -> Parsed<ExportView> {
    match spec_string(s, pos) {
        Err(h) => Err(h),
        Ok((name, next)) => match spec_imp_export_description(s, next) {
            Err(h) => Err(h),
            Ok((desc, end)) => Ok((ExportView { name, desc }, end)),
        },
    }
}

/// A group of locals: a count and, unless the count is zero, the one value
/// type that all of them have.
pub open spec fn spec_local(s: Seq<u8>, pos: nat) -> Parsed<Seq<ValType>> {
    match spec_u32(s, pos) {
        Err(h) => Err(h),
        Ok((n, next)) => if n == 0 {
            Ok((Seq::empty(), next))
        } else {
            match spec_val_type(s, next) {
                Err(h) => Err(h),
                Ok((t, end)) => Ok((Seq::new(n as nat, |i: int| t), end)),
            }
        },
    }
}

} // verus!
