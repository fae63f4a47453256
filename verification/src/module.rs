//! The decoded module and its parts.
//!
//! Indices are kept as the raw numbers that the binary holds. Whether they
//! point at anything is for validation to say, not for the decoder.
//!
//! Types that own vectors or strings have a mathematical counterpart, named
//! with the suffix `View`, that holds sequences instead; `deep_view` maps a
//! value to it. The other types are their own counterpart.

use vstd::prelude::*;

verus! {

/// An index into the type section.
#[derive(Clone, Copy, Debug, PartialEq, Eq)]
pub struct TypeIdx(pub u32);

impl DeepView for TypeIdx {
    type V = TypeIdx;

    open spec fn deep_view(&self) -> TypeIdx {
        *self
    }
}

/// An index into the function index space.
#[derive(Clone, Copy, Debug, PartialEq, Eq)]
pub struct FuncIdx(pub u32);

impl DeepView for FuncIdx {
    type V = FuncIdx;

    open spec fn deep_view(&self) -> FuncIdx {
        *self
    }
}

/// An index into the table index space.
#[derive(Clone, Copy, Debug, PartialEq, Eq)]
pub struct TableIdx(pub u32);

impl DeepView for TableIdx {
    type V = TableIdx;

    open spec fn deep_view(&self) -> TableIdx {
        *self
    }
}

/// An index into the memory index space.
#[derive(Clone, Copy, Debug, PartialEq, Eq)]
pub struct MemIdx(pub u32);

impl DeepView for MemIdx {
    type V = MemIdx;

    open spec fn deep_view(&self) -> MemIdx {
        *self
    }
}

/// An index into the global index space.
#[derive(Clone, Copy, Debug, PartialEq, Eq)]
pub struct GlobalIdx(pub u32);

impl DeepView for GlobalIdx {
    type V = GlobalIdx;

    open spec fn deep_view(&self) -> GlobalIdx {
        *self
    }
}

/// An index into the locals of a function, parameters first.
#[derive(Clone, Copy, Debug, PartialEq, Eq)]
pub struct LocalIdx(pub u32);

impl DeepView for LocalIdx {
    type V = LocalIdx;

    open spec fn deep_view(&self) -> LocalIdx {
        *self
    }
}

/// A branch target, counted outward from the innermost enclosing block.
#[derive(Clone, Copy, Debug, PartialEq, Eq)]
pub struct LabelIdx(pub u32);

impl DeepView for LabelIdx {
    type V = LabelIdx;

    open spec fn deep_view(&self) -> LabelIdx {
        *self
    }
}

/// The type of a value.
#[derive(Clone, Copy, Debug, PartialEq, Eq)]
pub enum ValType {
    I32,
    I64,
    F32,
    F64,
}

impl DeepView for ValType {
    type V = ValType;

    open spec fn deep_view(&self) -> ValType {
        *self
    }
}

/// What a block leaves on the stack: one value, or nothing.
#[derive(Clone, Copy, Debug, PartialEq, Eq)]
pub struct ResultType(pub Option<ValType>);

impl DeepView for ResultType {
    type V = ResultType;

    open spec fn deep_view(&self) -> ResultType {
        *self
    }
}

/// The size bounds of a table or a memory.
#[derive(Clone, Copy, Debug, PartialEq, Eq)]
pub struct Limits {
    pub min: u32,
    pub max: Option<u32>,
}

impl DeepView for Limits {
    type V = Limits;

    open spec fn deep_view(&self) -> Limits {
        *self
    }
}

/// The type of the elements of a table.
#[derive(Clone, Copy, Debug, PartialEq, Eq)]
pub enum ElemType {
    FuncRef,
}

impl DeepView for ElemType {
    type V = ElemType;

    open spec fn deep_view(&self) -> ElemType {
        *self
    }
}

/// The type of a table: its limits and the type of its elements.
#[derive(Clone, Copy, Debug, PartialEq, Eq)]
pub struct TableType(pub Limits, pub ElemType);

impl DeepView for TableType {
    type V = TableType;

    open spec fn deep_view(&self) -> TableType {
        *self
    }
}

/// The type of a memory: its limits, in pages.
#[derive(Clone, Copy, Debug, PartialEq, Eq)]
pub struct MemType(pub Limits);

impl DeepView for MemType {
    type V = MemType;

    open spec fn deep_view(&self) -> MemType {
        *self
    }
}

/// Whether a global can be assigned to.
#[derive(Clone, Copy, Debug, PartialEq, Eq)]
pub enum Mut {
    Var,
    Const,
}

impl DeepView for Mut {
    type V = Mut;

    open spec fn deep_view(&self) -> Mut {
        *self
    }
}

/// The type of a global: its mutability and the type of its value.
#[derive(Clone, Copy, Debug, PartialEq, Eq)]
pub struct GlobalType(pub Mut, pub ValType);

impl DeepView for GlobalType {
    type V = GlobalType;

    open spec fn deep_view(&self) -> GlobalType {
        *self
    }
}

/// A table of the module.
#[derive(Clone, Copy, Debug, PartialEq, Eq)]
pub struct Table {
    pub typ: TableType,
}

impl DeepView for Table {
    type V = Table;

    open spec fn deep_view(&self) -> Table {
        *self
    }
}

/// A memory of the module.
#[derive(Clone, Copy, Debug, PartialEq, Eq)]
pub struct Mem {
    pub typ: MemType,
}

impl DeepView for Mem {
    type V = Mem;

    open spec fn deep_view(&self) -> Mem {
        *self
    }
}

/// The function to run when the module is instantiated.
#[derive(Clone, Copy, Debug, PartialEq, Eq)]
pub struct Start {
    pub func: FuncIdx,
}

impl DeepView for Start {
    type V = Start;

    open spec fn deep_view(&self) -> Start {
        *self
    }
}

/// What an import or an export refers to.
#[derive(Clone, Copy, Debug, PartialEq, Eq)]
pub enum ImpExportDesc {
    Func(TypeIdx),
    Table(TableType),
    Mem(MemType),
    Global(GlobalType),
}

impl DeepView for ImpExportDesc {
    type V = ImpExportDesc;

    open spec fn deep_view(&self) -> ImpExportDesc {
        *self
    }
}

/// The immediate of a memory access: a byte offset and an alignment exponent.
#[derive(Clone, Copy, Debug, PartialEq, Eq)]
pub struct MemArg {
    pub offset: u32,
    pub align: u32,
}

impl DeepView for MemArg {
    type V = MemArg;

    open spec fn deep_view(&self) -> MemArg {
        *self
    }
}

/// The marker between the two arms of an `if`.
#[derive(Clone, Copy, Debug, PartialEq, Eq)]
pub struct Else;

impl DeepView for Else {
    type V = Else;

    open spec fn deep_view(&self) -> Else {
        *self
    }
}

/// The marker that closes a block or an expression.
#[derive(Clone, Copy, Debug, PartialEq, Eq)]
pub struct End;

impl DeepView for End {
    type V = End;

    open spec fn deep_view(&self) -> End {
        *self
    }
}

/// The signature of a function.
#[derive(Debug, PartialEq, Eq)]
pub struct FuncType {
    pub params: Vec<ValType>,
    pub results: Vec<ValType>,
}

/// The mathematical content of a [`FuncType`].
pub struct FuncTypeView {
    pub params: Seq<ValType>,
    pub results: Seq<ValType>,
}

impl DeepView for FuncType {
    type V = FuncTypeView;

    open spec fn deep_view(&self) -> FuncTypeView {
        FuncTypeView { params: self.params@, results: self.results@ }
    }
}

/// Something the module takes from its host, named by a module and a name.
#[derive(Debug, PartialEq, Eq)]
pub struct Import {
    pub module: String,
    pub name: String,
    pub desc: ImpExportDesc,
}

/// The mathematical content of an [`Import`].
pub struct ImportView {
    pub module: Seq<char>,
    pub name: Seq<char>,
    pub desc: ImpExportDesc,
}

impl DeepView for Import {
    type V = ImportView;

    open spec fn deep_view(&self) -> ImportView {
        ImportView { module: self.module@, name: self.name@, desc: self.desc }
    }
}

/// Something the module offers to its host under a name.
#[derive(Debug, PartialEq, Eq)]
pub struct Export {
    pub name: String,
    pub desc: ImpExportDesc,
}

/// The mathematical content of an [`Export`].
pub struct ExportView {
    pub name: Seq<char>,
    pub desc: ImpExportDesc,
}

impl DeepView for Export {
    type V = ExportView;

    open spec fn deep_view(&self) -> ExportView {
        ExportView { name: self.name@, desc: self.desc }
    }
}

/// One instruction. A block, a loop and an `if` own the instructions nested in
/// them, so an instruction is a tree.
///
/// The two float constants hold the IEEE 754 bit pattern of their value.
#[derive(Debug, PartialEq, Eq)]
pub enum Instr {
    /// `unreachable`
    Unreachable,
    /// `nop`
    Nop,
    /// `block`
    Block(ResultType, Vec<Instr>, End),
    /// `loop`
    Loop(ResultType, Vec<Instr>, End),
    /// `if`
    If(ResultType, Vec<Instr>, Else, Vec<Instr>, End),
    /// `br`
    Br(LabelIdx),
    /// `br_if`
    BrIf(LabelIdx),
    /// `br_table`
    BrTable(Vec<LabelIdx>, LabelIdx),
    /// `return`
    Return,
    /// `call`
    Call(FuncIdx),
    /// `call_indirect`
    CallIndirect(TypeIdx),
    /// `drop`
    Drop,
    /// `select`
    Select,
    /// `local.get`
    LocalGet(LocalIdx),
    /// `local.set`
    LocalSet(LocalIdx),
    /// `local.tee`
    LocalTee(LocalIdx),
    /// `global.get`
    GlobalGet(GlobalIdx),
    /// `global.set`
    GlobalSet(GlobalIdx),
    /// `i32.load`
    I32Load(MemArg),
    /// `i64.load`
    I64Load(MemArg),
    /// `f32.load`
    F32Load(MemArg),
    /// `f64.load`
    F64Load(MemArg),
    /// `i32.load8_s`
    I32Load8S(MemArg),
    /// `i32.load8_u`
    I32Load8U(MemArg),
    /// `i32.load16_s`
    I32Load16S(MemArg),
    /// `i32.load16_u`
    I32Load16U(MemArg),
    /// `i64.load8_s`
    I64Load8S(MemArg),
    /// `i64.load8_u`
    I64Load8U(MemArg),
    /// `i64.load16_s`
    I64Load16S(MemArg),
    /// `i64.load16_u`
    I64Load16U(MemArg),
    /// `i64.load32_s`
    I64Load32S(MemArg),
    /// `i64.load32_u`
    I64Load32U(MemArg),
    /// `i32.store`
    I32Store(MemArg),
    /// `i64.store`
    I64Store(MemArg),
    /// `f32.store`
    F32Store(MemArg),
    /// `f64.store`
    F64Store(MemArg),
    /// `i32.store8`
    I32Store8(MemArg),
    /// `i32.store16`
    I32Store16(MemArg),
    /// `i64.store8`
    I64Store8(MemArg),
    /// `i64.store16`
    I64Store16(MemArg),
    /// `i64.store32`
    I64Store32(MemArg),
    /// `memory.size`
    MemorySize,
    /// `memory.grow`
    MemoryGrow,
    /// `i32.const`
    I32Const(i32),
    /// `i64.const`
    I64Const(i64),
    /// `f32.const`
    F32Const(u32),
    /// `f64.const`
    F64Const(u64),
    /// `i32.eqz`
    I32Eqz,
    /// `i32.eq`
    I32Eq,
    /// `i32.ne`
    I32Ne,
    /// `i32.lt_s`
    I32LtS,
    /// `i32.lt_u`
    I32LtU,
    /// `i32.gt_s`
    I32GtS,
    /// `i32.gt_u`
    I32GtU,
    /// `i32.le_s`
    I32LeS,
    /// `i32.le_u`
    I32LeU,
    /// `i32.ge_s`
    I32GeS,
    /// `i32.ge_u`
    I32GeU,
    /// `i64.eqz`
    I64Eqz,
    /// `i64.eq`
    I64Eq,
    /// `i64.ne`
    I64Ne,
    /// `i64.lt_s`
    I64LtS,
    /// `i64.lt_u`
    I64LtU,
    /// `i64.gt_s`
    I64GtS,
    /// `i64.gt_u`
    I64GtU,
    /// `i64.le_s`
    I64LeS,
    /// `i64.le_u`
    I64LeU,
    /// `i64.ge_s`
    I64GeS,
    /// `i64.ge_u`
    I64GeU,
    /// `f32.eq`
    F32Eq,
    /// `f32.ne`
    F32Ne,
    /// `f32.lt`
    F32Lt,
    /// `f32.gt`
    F32Gt,
    /// `f32.le`
    F32Le,
    /// `f32.ge`
    F32Ge,
    /// `f64.eq`
    F64Eq,
    /// `f64.ne`
    F64Ne,
    /// `f64.lt`
    F64Lt,
    /// `f64.gt`
    F64Gt,
    /// `f64.le`
    F64Le,
    /// `f64.ge`
    F64Ge,
    /// `i32.clz`
    I32Clz,
    /// `i32.ctz`
    I32Ctz,
    /// `i32.popcnt`
    I32Popcnt,
    /// `i32.add`
    I32Add,
    /// `i32.sub`
    I32Sub,
    /// `i32.mul`
    I32Mul,
    /// `i32.div_s`
    I32DivS,
    /// `i32.div_u`
    I32DivU,
    /// `i32.rem_s`
    I32RemS,
    /// `i32.rem_u`
    I32RemU,
    /// `i32.and`
    I32And,
    /// `i32.or`
    I32Or,
    /// `i32.xor`
    I32Xor,
    /// `i32.shl`
    I32Shl,
    /// `i32.shr_s`
    I32ShrS,
    /// `i32.shr_u`
    I32ShrU,
    /// `i32.rotl`
    I32Rotl,
    /// `i32.rotr`
    I32Rotr,
    /// `i64.clz`
    I64Clz,
    /// `i64.ctz`
    I64Ctz,
    /// `i64.popcnt`
    I64Popcnt,
    /// `i64.add`
    I64Add,
    /// `i64.sub`
    I64Sub,
    /// `i64.mul`
    I64Mul,
    /// `i64.div_s`
    I64DivS,
    /// `i64.div_u`
    I64DivU,
    /// `i64.rem_s`
    I64RemS,
    /// `i64.rem_u`
    I64RemU,
    /// `i64.and`
    I64And,
    /// `i64.or`
    I64Or,
    /// `i64.xor`
    I64Xor,
    /// `i64.shl`
    I64Shl,
    /// `i64.shr_s`
    I64ShrS,
    /// `i64.shr_u`
    I64ShrU,
    /// `i64.rotl`
    I64Rotl,
    /// `i64.rotr`
    I64Rotr,
    /// `f32.abs`
    F32Abs,
    /// `f32.neg`
    F32Neg,
    /// `f32.ceil`
    F32Ceil,
    /// `f32.floor`
    F32Floor,
    /// `f32.trunc`
    F32Trunc,
    /// `f32.nearest`
    F32Nearest,
    /// `f32.sqrt`
    F32Sqrt,
    /// `f32.add`
    F32Add,
    /// `f32.sub`
    F32Sub,
    /// `f32.mul`
    F32Mul,
    /// `f32.div`
    F32Div,
    /// `f32.min`
    F32Min,
    /// `f32.max`
    F32Max,
    /// `f32.copysign`
    F32Copysign,
    /// `f64.abs`
    F64Abs,
    /// `f64.neg`
    F64Neg,
    /// `f64.ceil`
    F64Ceil,
    /// `f64.floor`
    F64Floor,
    /// `f64.trunc`
    F64Trunc,
    /// `f64.nearest`
    F64Nearest,
    /// `f64.sqrt`
    F64Sqrt,
    /// `f64.add`
    F64Add,
    /// `f64.sub`
    F64Sub,
    /// `f64.mul`
    F64Mul,
    /// `f64.div`
    F64Div,
    /// `f64.min`
    F64Min,
    /// `f64.max`
    F64Max,
    /// `f64.copysign`
    F64Copysign,
    /// `i32.wrap_i64`
    I32WrapI64,
    /// `i32.trunc_f32_s`
    I32TruncF32S,
    /// `i32.trunc_f32_u`
    I32TruncF32U,
    /// `i32.trunc_f64_s`
    I32TruncF64S,
    /// `i32.trunc_f64_u`
    I32TruncF64U,
    /// `i64.extend_i32_s`
    I64ExtendI32S,
    /// `i64.extend_i32_u`
    I64ExtendI32U,
    /// `i64.trunc_f32_s`
    I64TruncF32S,
    /// `i64.trunc_f32_u`
    I64TruncF32U,
    /// `i64.trunc_f64_s`
    I64TruncF64S,
    /// `i64.trunc_f64_u`
    I64TruncF64U,
    /// `f32.convert_i32_s`
    F32ConvertI32S,
    /// `f32.convert_i32_u`
    F32ConvertI32U,
    /// `f32.convert_i64_s`
    F32ConvertI64S,
    /// `f32.convert_i64_u`
    F32ConvertI64U,
    /// `f32.demote_f64`
    F32DemoteF64,
    /// `f64.convert_i32_s`
    F64ConvertI32S,
    /// `f64.convert_i32_u`
    F64ConvertI32U,
    /// `f64.convert_i64_s`
    F64ConvertI64S,
    /// `f64.convert_i64_u`
    F64ConvertI64U,
    /// `f64.promote_f32`
    F64PromoteF32,
    /// `i32.reinterpret_f32`
    I32ReinterpretF32,
    /// `i64.reinterpret_f64`
    I64ReinterpretF64,
    /// `f32.reinterpret_i32`
    F32ReinterpretI32,
    /// `f64.reinterpret_i64`
    F64ReinterpretI64,
}

/// The mathematical content of an [`Instr`]: its opcode and its immediates.
pub enum InstrView {
    /// An instruction without immediates.
    Plain { opcode: u8 },
    /// An instruction with one index as its immediate.
    Indexed { opcode: u8, index: u32 },
    /// A load or a store.
    Memory { opcode: u8, arg: MemArg },
    /// `i32.const`
    I32Const(i32),
    /// `i64.const`
    I64Const(i64),
    /// `f32.const`, by bit pattern
    F32Const(u32),
    /// `f64.const`, by bit pattern
    F64Const(u64),
    /// `block`
    Block { result: ResultType, body: Seq<InstrView> },
    /// `loop`
    Loop { result: ResultType, body: Seq<InstrView> },
    /// `if`, with an empty `else_body` where the binary has no else arm
    If { result: ResultType, then_body: Seq<InstrView>, else_body: Seq<InstrView> },
    /// `br_table`
    BrTable { labels: Seq<LabelIdx>, default: LabelIdx },
}

/// The content of a sequence of instructions.
pub open spec fn instrs_view(instrs: Seq<Instr>) -> Seq<InstrView>
    decreases instrs,
{
    Seq::new(
        instrs.len(),
        |i: int|
            if 0 <= i < instrs.len() {
                instr_view(instrs[i])
            } else {
                InstrView::Plain { opcode: 0 }
            },
    )
}

/// The content of an instruction. For an instruction without immediates, with
/// an index or with a memory immediate this is the opcode table, read from the
/// instruction to its byte.
pub open spec fn instr_view(instr: Instr) -> InstrView
    decreases instr,
{
    match instr {
        Instr::Unreachable => InstrView::Plain { opcode: 0x00 },
        Instr::Nop => InstrView::Plain { opcode: 0x01 },
        Instr::Block(result, body, _) => InstrView::Block { result, body: instrs_view(body@) },
        Instr::Loop(result, body, _) => InstrView::Loop { result, body: instrs_view(body@) },
        Instr::If(result, then_body, _, else_body, _) => InstrView::If {
            result,
            then_body: instrs_view(then_body@),
            else_body: instrs_view(else_body@),
        },
        Instr::Br(i) => InstrView::Indexed { opcode: 0x0C, index: i.0 },
        Instr::BrIf(i) => InstrView::Indexed { opcode: 0x0D, index: i.0 },
        Instr::BrTable(labels, default) => InstrView::BrTable { labels: labels@, default },
        Instr::Return => InstrView::Plain { opcode: 0x0F },
        Instr::Call(i) => InstrView::Indexed { opcode: 0x10, index: i.0 },
        Instr::CallIndirect(i) => InstrView::Indexed { opcode: 0x11, index: i.0 },
        Instr::Drop => InstrView::Plain { opcode: 0x1A },
        Instr::Select => InstrView::Plain { opcode: 0x1B },
        Instr::LocalGet(i) => InstrView::Indexed { opcode: 0x20, index: i.0 },
        Instr::LocalSet(i) => InstrView::Indexed { opcode: 0x21, index: i.0 },
        Instr::LocalTee(i) => InstrView::Indexed { opcode: 0x22, index: i.0 },
        Instr::GlobalGet(i) => InstrView::Indexed { opcode: 0x23, index: i.0 },
        Instr::GlobalSet(i) => InstrView::Indexed { opcode: 0x24, index: i.0 },
        Instr::I32Load(arg) => InstrView::Memory { opcode: 0x28, arg },
        Instr::I64Load(arg) => InstrView::Memory { opcode: 0x29, arg },
        Instr::F32Load(arg) => InstrView::Memory { opcode: 0x2A, arg },
        Instr::F64Load(arg) => InstrView::Memory { opcode: 0x2B, arg },
        Instr::I32Load8S(arg) => InstrView::Memory { opcode: 0x2C, arg },
        Instr::I32Load8U(arg) => InstrView::Memory { opcode: 0x2D, arg },
        Instr::I32Load16S(arg) => InstrView::Memory { opcode: 0x2E, arg },
        Instr::I32Load16U(arg) => InstrView::Memory { opcode: 0x2F, arg },
        Instr::I64Load8S(arg) => InstrView::Memory { opcode: 0x30, arg },
        Instr::I64Load8U(arg) => InstrView::Memory { opcode: 0x31, arg },
        Instr::I64Load16S(arg) => InstrView::Memory { opcode: 0x32, arg },
        Instr::I64Load16U(arg) => InstrView::Memory { opcode: 0x33, arg },
        Instr::I64Load32S(arg) => InstrView::Memory { opcode: 0x34, arg },
        Instr::I64Load32U(arg) => InstrView::Memory { opcode: 0x35, arg },
        Instr::I32Store(arg) => InstrView::Memory { opcode: 0x36, arg },
        Instr::I64Store(arg) => InstrView::Memory { opcode: 0x37, arg },
        Instr::F32Store(arg) => InstrView::Memory { opcode: 0x38, arg },
        Instr::F64Store(arg) => InstrView::Memory { opcode: 0x39, arg },
        Instr::I32Store8(arg) => InstrView::Memory { opcode: 0x3A, arg },
        Instr::I32Store16(arg) => InstrView::Memory { opcode: 0x3B, arg },
        Instr::I64Store8(arg) => InstrView::Memory { opcode: 0x3C, arg },
        Instr::I64Store16(arg) => InstrView::Memory { opcode: 0x3D, arg },
        Instr::I64Store32(arg) => InstrView::Memory { opcode: 0x3E, arg },
        Instr::MemorySize => InstrView::Plain { opcode: 0x3F },
        Instr::MemoryGrow => InstrView::Plain { opcode: 0x40 },
        Instr::I32Const(value) => InstrView::I32Const(value),
        Instr::I64Const(value) => InstrView::I64Const(value),
        Instr::F32Const(bits) => InstrView::F32Const(bits),
        Instr::F64Const(bits) => InstrView::F64Const(bits),
        Instr::I32Eqz => InstrView::Plain { opcode: 0x45 },
        Instr::I32Eq => InstrView::Plain { opcode: 0x46 },
        Instr::I32Ne => InstrView::Plain { opcode: 0x47 },
        Instr::I32LtS => InstrView::Plain { opcode: 0x48 },
        Instr::I32LtU => InstrView::Plain { opcode: 0x49 },
        Instr::I32GtS => InstrView::Plain { opcode: 0x4A },
        Instr::I32GtU => InstrView::Plain { opcode: 0x4B },
        Instr::I32LeS => InstrView::Plain { opcode: 0x4C },
        Instr::I32LeU => InstrView::Plain { opcode: 0x4D },
        Instr::I32GeS => InstrView::Plain { opcode: 0x4E },
        Instr::I32GeU => InstrView::Plain { opcode: 0x4F },
        Instr::I64Eqz => InstrView::Plain { opcode: 0x50 },
        Instr::I64Eq => InstrView::Plain { opcode: 0x51 },
        Instr::I64Ne => InstrView::Plain { opcode: 0x52 },
        Instr::I64LtS => InstrView::Plain { opcode: 0x53 },
        Instr::I64LtU => InstrView::Plain { opcode: 0x54 },
        Instr::I64GtS => InstrView::Plain { opcode: 0x55 },
        Instr::I64GtU => InstrView::Plain { opcode: 0x56 },
        Instr::I64LeS => InstrView::Plain { opcode: 0x57 },
        Instr::I64LeU => InstrView::Plain { opcode: 0x58 },
        Instr::I64GeS => InstrView::Plain { opcode: 0x59 },
        Instr::I64GeU => InstrView::Plain { opcode: 0x5A },
        Instr::F32Eq => InstrView::Plain { opcode: 0x5B },
        Instr::F32Ne => InstrView::Plain { opcode: 0x5C },
        Instr::F32Lt => InstrView::Plain { opcode: 0x5D },
        Instr::F32Gt => InstrView::Plain { opcode: 0x5E },
        Instr::F32Le => InstrView::Plain { opcode: 0x5F },
        Instr::F32Ge => InstrView::Plain { opcode: 0x60 },
        Instr::F64Eq => InstrView::Plain { opcode: 0x61 },
        Instr::F64Ne => InstrView::Plain { opcode: 0x62 },
        Instr::F64Lt => InstrView::Plain { opcode: 0x63 },
        Instr::F64Gt => InstrView::Plain { opcode: 0x64 },
        Instr::F64Le => InstrView::Plain { opcode: 0x65 },
        Instr::F64Ge => InstrView::Plain { opcode: 0x66 },
        Instr::I32Clz => InstrView::Plain { opcode: 0x67 },
        Instr::I32Ctz => InstrView::Plain { opcode: 0x68 },
        Instr::I32Popcnt => InstrView::Plain { opcode: 0x69 },
        Instr::I32Add => InstrView::Plain { opcode: 0x6A },
        Instr::I32Sub => InstrView::Plain { opcode: 0x6B },
        Instr::I32Mul => InstrView::Plain { opcode: 0x6C },
        Instr::I32DivS => InstrView::Plain { opcode: 0x6D },
        Instr::I32DivU => InstrView::Plain { opcode: 0x6E },
        Instr::I32RemS => InstrView::Plain { opcode: 0x6F },
        Instr::I32RemU => InstrView::Plain { opcode: 0x70 },
        Instr::I32And => InstrView::Plain { opcode: 0x71 },
        Instr::I32Or => InstrView::Plain { opcode: 0x72 },
        Instr::I32Xor => InstrView::Plain { opcode: 0x73 },
        Instr::I32Shl => InstrView::Plain { opcode: 0x74 },
        Instr::I32ShrS => InstrView::Plain { opcode: 0x75 },
        Instr::I32ShrU => InstrView::Plain { opcode: 0x76 },
        Instr::I32Rotl => InstrView::Plain { opcode: 0x77 },
        Instr::I32Rotr => InstrView::Plain { opcode: 0x78 },
        Instr::I64Clz => InstrView::Plain { opcode: 0x79 },
        Instr::I64Ctz => InstrView::Plain { opcode: 0x7A },
        Instr::I64Popcnt => InstrView::Plain { opcode: 0x7B },
        Instr::I64Add => InstrView::Plain { opcode: 0x7C },
        Instr::I64Sub => InstrView::Plain { opcode: 0x7D },
        Instr::I64Mul => InstrView::Plain { opcode: 0x7E },
        Instr::I64DivS => InstrView::Plain { opcode: 0x7F },
        Instr::I64DivU => InstrView::Plain { opcode: 0x80 },
        Instr::I64RemS => InstrView::Plain { opcode: 0x81 },
        Instr::I64RemU => InstrView::Plain { opcode: 0x82 },
        Instr::I64And => InstrView::Plain { opcode: 0x83 },
        Instr::I64Or => InstrView::Plain { opcode: 0x84 },
        Instr::I64Xor => InstrView::Plain { opcode: 0x85 },
        Instr::I64Shl => InstrView::Plain { opcode: 0x86 },
        Instr::I64ShrS => InstrView::Plain { opcode: 0x87 },
        Instr::I64ShrU => InstrView::Plain { opcode: 0x88 },
        Instr::I64Rotl => InstrView::Plain { opcode: 0x89 },
        Instr::I64Rotr => InstrView::Plain { opcode: 0x8A },
        Instr::F32Abs => InstrView::Plain { opcode: 0x8B },
        Instr::F32Neg => InstrView::Plain { opcode: 0x8C },
        Instr::F32Ceil => InstrView::Plain { opcode: 0x8D },
        Instr::F32Floor => InstrView::Plain { opcode: 0x8E },
        Instr::F32Trunc => InstrView::Plain { opcode: 0x8F },
        Instr::F32Nearest => InstrView::Plain { opcode: 0x90 },
        Instr::F32Sqrt => InstrView::Plain { opcode: 0x91 },
        Instr::F32Add => InstrView::Plain { opcode: 0x92 },
        Instr::F32Sub => InstrView::Plain { opcode: 0x93 },
        Instr::F32Mul => InstrView::Plain { opcode: 0x94 },
        Instr::F32Div => InstrView::Plain { opcode: 0x95 },
        Instr::F32Min => InstrView::Plain { opcode: 0x96 },
        Instr::F32Max => InstrView::Plain { opcode: 0x97 },
        Instr::F32Copysign => InstrView::Plain { opcode: 0x98 },
        Instr::F64Abs => InstrView::Plain { opcode: 0x99 },
        Instr::F64Neg => InstrView::Plain { opcode: 0x9A },
        Instr::F64Ceil => InstrView::Plain { opcode: 0x9B },
        Instr::F64Floor => InstrView::Plain { opcode: 0x9C },
        Instr::F64Trunc => InstrView::Plain { opcode: 0x9D },
        Instr::F64Nearest => InstrView::Plain { opcode: 0x9E },
        Instr::F64Sqrt => InstrView::Plain { opcode: 0x9F },
        Instr::F64Add => InstrView::Plain { opcode: 0xA0 },
        Instr::F64Sub => InstrView::Plain { opcode: 0xA1 },
        Instr::F64Mul => InstrView::Plain { opcode: 0xA2 },
        Instr::F64Div => InstrView::Plain { opcode: 0xA3 },
        Instr::F64Min => InstrView::Plain { opcode: 0xA4 },
        Instr::F64Max => InstrView::Plain { opcode: 0xA5 },
        Instr::F64Copysign => InstrView::Plain { opcode: 0xA6 },
        Instr::I32WrapI64 => InstrView::Plain { opcode: 0xA7 },
        Instr::I32TruncF32S => InstrView::Plain { opcode: 0xA8 },
        Instr::I32TruncF32U => InstrView::Plain { opcode: 0xA9 },
        Instr::I32TruncF64S => InstrView::Plain { opcode: 0xAA },
        Instr::I32TruncF64U => InstrView::Plain { opcode: 0xAB },
        Instr::I64ExtendI32S => InstrView::Plain { opcode: 0xAC },
        Instr::I64ExtendI32U => InstrView::Plain { opcode: 0xAD },
        Instr::I64TruncF32S => InstrView::Plain { opcode: 0xAE },
        Instr::I64TruncF32U => InstrView::Plain { opcode: 0xAF },
        Instr::I64TruncF64S => InstrView::Plain { opcode: 0xB0 },
        Instr::I64TruncF64U => InstrView::Plain { opcode: 0xB1 },
        Instr::F32ConvertI32S => InstrView::Plain { opcode: 0xB2 },
        Instr::F32ConvertI32U => InstrView::Plain { opcode: 0xB3 },
        Instr::F32ConvertI64S => InstrView::Plain { opcode: 0xB4 },
        Instr::F32ConvertI64U => InstrView::Plain { opcode: 0xB5 },
        Instr::F32DemoteF64 => InstrView::Plain { opcode: 0xB6 },
        Instr::F64ConvertI32S => InstrView::Plain { opcode: 0xB7 },
        Instr::F64ConvertI32U => InstrView::Plain { opcode: 0xB8 },
        Instr::F64ConvertI64S => InstrView::Plain { opcode: 0xB9 },
        Instr::F64ConvertI64U => InstrView::Plain { opcode: 0xBA },
        Instr::F64PromoteF32 => InstrView::Plain { opcode: 0xBB },
        Instr::I32ReinterpretF32 => InstrView::Plain { opcode: 0xBC },
        Instr::I64ReinterpretF64 => InstrView::Plain { opcode: 0xBD },
        Instr::F32ReinterpretI32 => InstrView::Plain { opcode: 0xBE },
        Instr::F64ReinterpretI64 => InstrView::Plain { opcode: 0xBF },
    }
}

impl DeepView for Instr {
    type V = InstrView;

    open spec fn deep_view(&self) -> InstrView {
        instr_view(*self)
    }
}

/// The content of a vector of instructions is the content of its elements.
pub broadcast proof fn lemma_instrs_view(instrs: Vec<Instr>)
    ensures
        #[trigger] instrs.deep_view() == instrs_view(instrs@),
{
    assert(instrs.deep_view() =~= instrs_view(instrs@));
}

/// A sequence of instructions closed by an end marker.
#[derive(Debug, PartialEq, Eq)]
pub struct Expr(pub Vec<Instr>, pub End);

impl DeepView for Expr {
    type V = Seq<InstrView>;

    open spec fn deep_view(&self) -> Seq<InstrView> {
        instrs_view(self.0@)
    }
}

/// A function defined in the module.
#[derive(Debug, PartialEq, Eq)]
pub struct Function {
    pub typ: TypeIdx,
    pub locals: Vec<ValType>,
    pub body: Expr,
}

/// The mathematical content of a [`Function`].
pub struct FunctionView {
    pub typ: TypeIdx,
    pub locals: Seq<ValType>,
    pub body: Seq<InstrView>,
}

impl DeepView for Function {
    type V = FunctionView;

    open spec fn deep_view(&self) -> FunctionView {
        FunctionView { typ: self.typ, locals: self.locals@, body: self.body.deep_view() }
    }
}

/// A global variable and the expression that gives its first value.
#[derive(Debug, PartialEq, Eq)]
pub struct Global {
    pub typ: GlobalType,
    pub init: Expr,
}

/// The mathematical content of a [`Global`].
pub struct GlobalView {
    pub typ: GlobalType,
    pub init: Seq<InstrView>,
}

impl DeepView for Global {
    type V = GlobalView;

    open spec fn deep_view(&self) -> GlobalView {
        GlobalView { typ: self.typ, init: self.init.deep_view() }
    }
}

/// Functions to be written into a table, from an offset on.
#[derive(Debug, PartialEq, Eq)]
pub struct Elem {
    pub table: TableIdx,
    pub offset: Expr,
    pub init: Vec<FuncIdx>,
}

/// The mathematical content of an [`Elem`].
pub struct ElemView {
    pub table: TableIdx,
    pub offset: Seq<InstrView>,
    pub init: Seq<FuncIdx>,
}

impl DeepView for Elem {
    type V = ElemView;

    open spec fn deep_view(&self) -> ElemView {
        ElemView { table: self.table, offset: self.offset.deep_view(), init: self.init@ }
    }
}

/// Bytes to be written into a memory, from an offset on.
#[derive(Debug, PartialEq, Eq)]
pub struct Data {
    pub data: MemIdx,
    pub offset: Expr,
    pub init: Vec<u8>,
}

/// The mathematical content of a [`Data`].
pub struct DataView {
    pub data: MemIdx,
    pub offset: Seq<InstrView>,
    pub init: Seq<u8>,
}

impl DeepView for Data {
    type V = DataView;

    open spec fn deep_view(&self) -> DataView {
        DataView { data: self.data, offset: self.offset.deep_view(), init: self.init@ }
    }
}

/// The function signatures of a module.
pub type TypesComponent = Vec<FuncType>;

/// The functions of a module.
pub type FuncsComponent = Vec<Function>;

/// The tables of a module: at most one.
pub type TableComponent = Vec<Table>;

/// The memories of a module: at most one.
pub type MemoryComponent = Vec<Mem>;

/// The globals of a module.
pub type GlobalsComponent = Vec<Global>;

/// The element segments of a module.
pub type ElemComponent = Vec<Elem>;

/// The data segments of a module.
pub type DataComponent = Vec<Data>;

/// The start function of a module, if it has one.
pub type StartComponent = Option<Start>;

/// The imports of a module.
pub type ImportsComponent = Vec<Import>;

/// The exports of a module.
pub type ExportsComponent = Vec<Export>;

/// A decoded module.
#[derive(Debug, PartialEq, Eq)]
pub struct Module {
    pub types: TypesComponent,
    pub funcs: FuncsComponent,
    pub table: TableComponent,
    pub memory: MemoryComponent,
    pub globals: GlobalsComponent,
    pub elem: ElemComponent,
    pub data: DataComponent,
    pub start: StartComponent,
    pub imports: ImportsComponent,
    pub exports: ExportsComponent,
}

/// The mathematical content of a [`Module`].
pub struct ModuleView {
    pub types: Seq<FuncTypeView>,
    pub funcs: Seq<FunctionView>,
    pub table: Seq<Table>,
    pub memory: Seq<Mem>,
    pub globals: Seq<GlobalView>,
    pub elem: Seq<ElemView>,
    pub data: Seq<DataView>,
    pub start: Option<Start>,
    pub imports: Seq<ImportView>,
    pub exports: Seq<ExportView>,
}

impl ModuleView {
    /// The module without anything in it.
    pub open spec fn empty() -> ModuleView {
        ModuleView {
            types: Seq::empty(),
            funcs: Seq::empty(),
            table: Seq::empty(),
            memory: Seq::empty(),
            globals: Seq::empty(),
            elem: Seq::empty(),
            data: Seq::empty(),
            start: None,
            imports: Seq::empty(),
            exports: Seq::empty(),
        }
    }
}

impl DeepView for Module {
    type V = ModuleView;

    open spec fn deep_view(&self) -> ModuleView {
        ModuleView {
            types: self.types.deep_view(),
            funcs: self.funcs.deep_view(),
            table: self.table.deep_view(),
            memory: self.memory.deep_view(),
            globals: self.globals.deep_view(),
            elem: self.elem.deep_view(),
            data: self.data.deep_view(),
            start: self.start.deep_view(),
            imports: self.imports.deep_view(),
            exports: self.exports.deep_view(),
        }
    }
}

impl Default for Module {
    /// The module without anything in it.
    fn default() -> (m: Module)
        ensures
            m.deep_view() == ModuleView::empty(),
    {
        let m = Module {
            types: Vec::new(),
            funcs: Vec::new(),
            table: Vec::new(),
            memory: Vec::new(),
            globals: Vec::new(),
            elem: Vec::new(),
            data: Vec::new(),
            start: None,
            imports: Vec::new(),
            exports: Vec::new(),
        };
        assert(m.deep_view().types =~= Seq::empty());
        assert(m.deep_view().funcs =~= Seq::empty());
        assert(m.deep_view().table =~= Seq::empty());
        assert(m.deep_view().memory =~= Seq::empty());
        assert(m.deep_view().globals =~= Seq::empty());
        assert(m.deep_view().elem =~= Seq::empty());
        assert(m.deep_view().data =~= Seq::empty());
        assert(m.deep_view().imports =~= Seq::empty());
        assert(m.deep_view().exports =~= Seq::empty());
        m
    }
}

} // verus!
