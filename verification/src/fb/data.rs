//! Data fields of a function block and the buffer type that carries their
//! values across data connections.
//!
//! Each field holds one value of a fixed primitive kind.  A [`DataBuffer`]
//! erases the concrete kind so that the runtime can move any value along a
//! connection, while [`DataKind`] keeps enough information to type-check a
//! wiring before it is created.  Floating-point kinds are not represented:
//! every kind carried here is an exact value.

use vstd::prelude::*;

use crate::fb::direction::{Direction, In, Out};

verus! {

/// The supported primitive data kinds.
#[derive(Clone, Copy, Debug, PartialEq, Eq, Structural)]
pub enum DataKind {
    SInt,
    Int,
    DInt,
    LInt,
    USInt,
    UInt,
    UDInt,
    ULInt,
    Time,
    Date,
    TimeOfDay,
    DateTime,
    Str,
    WStr,
    Bool,
    Byte,
    Word,
    DWord,
    LWord,
}

/// Kind equality, as used when type-checking a data connection.
pub fn kind_eq(a: &DataKind, b: &DataKind) -> (r: bool)
    ensures
        r == (a == b),
{
    *a == *b
}

/// A type-erased value travelling across a data connection.
///
/// `Unassigned` is the sentinel of a buffer that has never been written; the
/// engine itself only ever moves values of a concrete kind.
#[derive(Debug)]
pub enum DataBuffer {
    SInt(i8),
    Int(i16),
    DInt(i32),
    LInt(i64),
    USInt(u8),
    UInt(u16),
    UDInt(u32),
    ULInt(u64),
    /// A duration in nanoseconds.
    Time(u64),
    Date(Vec<u8>),
    TimeOfDay(Vec<u8>),
    DateTime(Vec<u8>),
    WStr(Vec<u16>),
    Str(Vec<u8>),
    Bool(bool),
    Byte(u8),
    Word(u16),
    DWord(u32),
    LWord(u64),
    Unassigned,
}

/// The mathematical value of a [`DataBuffer`].
pub enum DataBufferView {
    SInt(i8),
    Int(i16),
    DInt(i32),
    LInt(i64),
    USInt(u8),
    UInt(u16),
    UDInt(u32),
    ULInt(u64),
    Time(u64),
    Date(Seq<u8>),
    TimeOfDay(Seq<u8>),
    DateTime(Seq<u8>),
    WStr(Seq<u16>),
    Str(Seq<u8>),
    Bool(bool),
    Byte(u8),
    Word(u16),
    DWord(u32),
    LWord(u64),
    Unassigned,
}

impl DataBufferView {
    /// The kind of the held value; `None` for the unassigned sentinel.
    pub open spec fn kind(self) -> Option<DataKind> {
        match self {
            DataBufferView::SInt(_) => Some(DataKind::SInt),
            DataBufferView::Int(_) => Some(DataKind::Int),
            DataBufferView::DInt(_) => Some(DataKind::DInt),
            DataBufferView::LInt(_) => Some(DataKind::LInt),
            DataBufferView::USInt(_) => Some(DataKind::USInt),
            DataBufferView::UInt(_) => Some(DataKind::UInt),
            DataBufferView::UDInt(_) => Some(DataKind::UDInt),
            DataBufferView::ULInt(_) => Some(DataKind::ULInt),
            DataBufferView::Time(_) => Some(DataKind::Time),
            DataBufferView::Date(_) => Some(DataKind::Date),
            DataBufferView::TimeOfDay(_) => Some(DataKind::TimeOfDay),
            DataBufferView::DateTime(_) => Some(DataKind::DateTime),
            DataBufferView::WStr(_) => Some(DataKind::WStr),
            DataBufferView::Str(_) => Some(DataKind::Str),
            DataBufferView::Bool(_) => Some(DataKind::Bool),
            DataBufferView::Byte(_) => Some(DataKind::Byte),
            DataBufferView::Word(_) => Some(DataKind::Word),
            DataBufferView::DWord(_) => Some(DataKind::DWord),
            DataBufferView::LWord(_) => Some(DataKind::LWord),
            DataBufferView::Unassigned => None,
        }
    }
}

impl View for DataBuffer {
    type V = DataBufferView;

    open spec fn view(&self) -> DataBufferView {
        match self {
            DataBuffer::SInt(v) => DataBufferView::SInt(*v),
            DataBuffer::Int(v) => DataBufferView::Int(*v),
            DataBuffer::DInt(v) => DataBufferView::DInt(*v),
            DataBuffer::LInt(v) => DataBufferView::LInt(*v),
            DataBuffer::USInt(v) => DataBufferView::USInt(*v),
            DataBuffer::UInt(v) => DataBufferView::UInt(*v),
            DataBuffer::UDInt(v) => DataBufferView::UDInt(*v),
            DataBuffer::ULInt(v) => DataBufferView::ULInt(*v),
            DataBuffer::Time(v) => DataBufferView::Time(*v),
            DataBuffer::Date(v) => DataBufferView::Date(v@),
            DataBuffer::TimeOfDay(v) => DataBufferView::TimeOfDay(v@),
            DataBuffer::DateTime(v) => DataBufferView::DateTime(v@),
            DataBuffer::WStr(v) => DataBufferView::WStr(v@),
            DataBuffer::Str(v) => DataBufferView::Str(v@),
            DataBuffer::Bool(v) => DataBufferView::Bool(*v),
            DataBuffer::Byte(v) => DataBufferView::Byte(*v),
            DataBuffer::Word(v) => DataBufferView::Word(*v),
            DataBuffer::DWord(v) => DataBufferView::DWord(*v),
            DataBuffer::LWord(v) => DataBufferView::LWord(*v),
            DataBuffer::Unassigned => DataBufferView::Unassigned,
        }
    }
}

impl DataBuffer {
    /// The kind of the held value; `None` for the unassigned sentinel.
    pub fn kind(&self) -> (r: Option<DataKind>)
        ensures
            r == self@.kind(),
    {
        match self {
            DataBuffer::SInt(_) => Some(DataKind::SInt),
            DataBuffer::Int(_) => Some(DataKind::Int),
            DataBuffer::DInt(_) => Some(DataKind::DInt),
            DataBuffer::LInt(_) => Some(DataKind::LInt),
            DataBuffer::USInt(_) => Some(DataKind::USInt),
            DataBuffer::UInt(_) => Some(DataKind::UInt),
            DataBuffer::UDInt(_) => Some(DataKind::UDInt),
            DataBuffer::ULInt(_) => Some(DataKind::ULInt),
            DataBuffer::Time(_) => Some(DataKind::Time),
            DataBuffer::Date(_) => Some(DataKind::Date),
            DataBuffer::TimeOfDay(_) => Some(DataKind::TimeOfDay),
            DataBuffer::DateTime(_) => Some(DataKind::DateTime),
            DataBuffer::WStr(_) => Some(DataKind::WStr),
            DataBuffer::Str(_) => Some(DataKind::Str),
            DataBuffer::Bool(_) => Some(DataKind::Bool),
            DataBuffer::Byte(_) => Some(DataKind::Byte),
            DataBuffer::Word(_) => Some(DataKind::Word),
            DataBuffer::DWord(_) => Some(DataKind::DWord),
            DataBuffer::LWord(_) => Some(DataKind::LWord),
            DataBuffer::Unassigned => None,
        }
    }
}

/// Whether two buffers hold values of the same kind.
pub fn buffer_variant_eq(a: &DataBuffer, b: &DataBuffer) -> (r: bool)
    ensures
        r == (a@.kind() == b@.kind()),
{
    match (a.kind(), b.kind()) {
        (Some(ka), Some(kb)) => ka == kb,
        (None, None) => true,
        _ => false,
    }
}

/// Copies a vector of plain values element by element.
fn copy_vec<T: Copy>(v: &Vec<T>) -> (r: Vec<T>)
    ensures
        r@ == v@,
{
    let mut out: Vec<T> = Vec::new();
    let mut i: usize = 0;
    while i < v.len()
        invariant
            i <= v@.len(),
            out@ == v@.subrange(0, i as int),
        decreases v@.len() - i,
    {
        out.push(v[i]);
        i = i + 1;
    }
    proof {
        assert(out@ =~= v@);
    }
    out
}

/// A typed holder usable as the payload of a [`Data`] field.
pub trait DataType: Sized {
    type Inner: DeepView;

    /// The held value, at the level contracts speak of.
    spec fn value_view(&self) -> <Self::Inner as DeepView>::V;

    /// The holder made from exactly `v`, for contracts.
    spec fn spec_make(v: Self::Inner) -> Self;

    /// The declared kind of this holder.
    spec fn spec_kind() -> DataKind;

    /// The held value as a buffer, at the level contracts speak of.
    spec fn buf_view(&self) -> DataBufferView;

    fn make(v: Self::Inner) -> (r: Self)
        ensures
            r == Self::spec_make(v),
    ;

    fn kind(&self) -> (k: DataKind)
        ensures
            k == Self::spec_kind(),
    ;

    fn get(&self) -> (r: Self::Inner)
        ensures
            r.deep_view() == self.value_view(),
    ;

    fn as_buf(&self) -> (r: DataBuffer)
        ensures
            r@ == self.buf_view(),
    ;

    fn set(&mut self, value: Self::Inner)
        ensures
            *final(self) == Self::spec_make(value),
    ;
}

/// An 8-bit signed integer holder.
#[derive(Clone, Copy, Debug)]
pub struct SInt {
    pub data: i8,
}

impl DataType for SInt {
    type Inner = i8;

    open spec fn value_view(&self) -> i8 {
        self.data
    }

    open spec fn spec_make(v: i8) -> Self {
        SInt { data: v }
    }

    open spec fn spec_kind() -> DataKind {
        DataKind::SInt
    }

    open spec fn buf_view(&self) -> DataBufferView {
        DataBufferView::SInt(self.data)
    }

    fn make(v: i8) -> Self {
        SInt { data: v }
    }

    fn kind(&self) -> DataKind {
        DataKind::SInt
    }

    fn get(&self) -> i8 {
        self.data
    }

    fn as_buf(&self) -> DataBuffer {
        DataBuffer::SInt(self.data)
    }

    fn set(&mut self, value: i8) {
        self.data = value;
    }
}

/// A 16-bit signed integer holder.
#[derive(Clone, Copy, Debug)]
pub struct Int {
    pub data: i16,
}

impl DataType for Int {
    type Inner = i16;

    open spec fn value_view(&self) -> i16 {
        self.data
    }

    open spec fn spec_make(v: i16) -> Self {
        Int { data: v }
    }

    open spec fn spec_kind() -> DataKind {
        DataKind::Int
    }

    open spec fn buf_view(&self) -> DataBufferView {
        DataBufferView::Int(self.data)
    }

    fn make(v: i16) -> Self {
        Int { data: v }
    }

    fn kind(&self) -> DataKind {
        DataKind::Int
    }

    fn get(&self) -> i16 {
        self.data
    }

    fn as_buf(&self) -> DataBuffer {
        DataBuffer::Int(self.data)
    }

    fn set(&mut self, value: i16) {
        self.data = value;
    }
}

/// A 32-bit signed integer holder.
#[derive(Clone, Copy, Debug)]
pub struct DInt {
    pub data: i32,
}

impl DataType for DInt {
    type Inner = i32;

    open spec fn value_view(&self) -> i32 {
        self.data
    }

    open spec fn spec_make(v: i32) -> Self {
        DInt { data: v }
    }

    open spec fn spec_kind() -> DataKind {
        DataKind::DInt
    }

    open spec fn buf_view(&self) -> DataBufferView {
        DataBufferView::DInt(self.data)
    }

    fn make(v: i32) -> Self {
        DInt { data: v }
    }

    fn kind(&self) -> DataKind {
        DataKind::DInt
    }

    fn get(&self) -> i32 {
        self.data
    }

    fn as_buf(&self) -> DataBuffer {
        DataBuffer::DInt(self.data)
    }

    fn set(&mut self, value: i32) {
        self.data = value;
    }
}

/// A 64-bit signed integer holder.
#[derive(Clone, Copy, Debug)]
pub struct LInt {
    pub data: i64,
}

impl DataType for LInt {
    type Inner = i64;

    open spec fn value_view(&self) -> i64 {
        self.data
    }

    open spec fn spec_make(v: i64) -> Self {
        LInt { data: v }
    }

    open spec fn spec_kind() -> DataKind {
        DataKind::LInt
    }

    open spec fn buf_view(&self) -> DataBufferView {
        DataBufferView::LInt(self.data)
    }

    fn make(v: i64) -> Self {
        LInt { data: v }
    }

    fn kind(&self) -> DataKind {
        DataKind::LInt
    }

    fn get(&self) -> i64 {
        self.data
    }

    fn as_buf(&self) -> DataBuffer {
        DataBuffer::LInt(self.data)
    }

    fn set(&mut self, value: i64) {
        self.data = value;
    }
}

/// An 8-bit unsigned integer holder.
#[derive(Clone, Copy, Debug)]
pub struct USInt {
    pub data: u8,
}

impl DataType for USInt {
    type Inner = u8;

    open spec fn value_view(&self) -> u8 {
        self.data
    }

    open spec fn spec_make(v: u8) -> Self {
        USInt { data: v }
    }

    open spec fn spec_kind() -> DataKind {
        DataKind::USInt
    }

    open spec fn buf_view(&self) -> DataBufferView {
        DataBufferView::USInt(self.data)
    }

    fn make(v: u8) -> Self {
        USInt { data: v }
    }

    fn kind(&self) -> DataKind {
        DataKind::USInt
    }

    fn get(&self) -> u8 {
        self.data
    }

    fn as_buf(&self) -> DataBuffer {
        DataBuffer::USInt(self.data)
    }

    fn set(&mut self, value: u8) {
        self.data = value;
    }
}

/// A 16-bit unsigned integer holder.
#[derive(Clone, Copy, Debug)]
pub struct UInt {
    pub data: u16,
}

impl DataType for UInt {
    type Inner = u16;

    open spec fn value_view(&self) -> u16 {
        self.data
    }

    open spec fn spec_make(v: u16) -> Self {
        UInt { data: v }
    }

    open spec fn spec_kind() -> DataKind {
        DataKind::UInt
    }

    open spec fn buf_view(&self) -> DataBufferView {
        DataBufferView::UInt(self.data)
    }

    fn make(v: u16) -> Self {
        UInt { data: v }
    }

    fn kind(&self) -> DataKind {
        DataKind::UInt
    }

    fn get(&self) -> u16 {
        self.data
    }

    fn as_buf(&self) -> DataBuffer {
        DataBuffer::UInt(self.data)
    }

    fn set(&mut self, value: u16) {
        self.data = value;
    }
}

/// A 32-bit unsigned integer holder.
#[derive(Clone, Copy, Debug)]
pub struct UDInt {
    pub data: u32,
}

impl DataType for UDInt {
    type Inner = u32;

    open spec fn value_view(&self) -> u32 {
        self.data
    }

    open spec fn spec_make(v: u32) -> Self {
        UDInt { data: v }
    }

    open spec fn spec_kind() -> DataKind {
        DataKind::UDInt
    }

    open spec fn buf_view(&self) -> DataBufferView {
        DataBufferView::UDInt(self.data)
    }

    fn make(v: u32) -> Self {
        UDInt { data: v }
    }

    fn kind(&self) -> DataKind {
        DataKind::UDInt
    }

    fn get(&self) -> u32 {
        self.data
    }

    fn as_buf(&self) -> DataBuffer {
        DataBuffer::UDInt(self.data)
    }

    fn set(&mut self, value: u32) {
        self.data = value;
    }
}

/// A 64-bit unsigned integer holder.
#[derive(Clone, Copy, Debug)]
pub struct ULInt {
    pub data: u64,
}

impl DataType for ULInt {
    type Inner = u64;

    open spec fn value_view(&self) -> u64 {
        self.data
    }

    open spec fn spec_make(v: u64) -> Self {
        ULInt { data: v }
    }

    open spec fn spec_kind() -> DataKind {
        DataKind::ULInt
    }

    open spec fn buf_view(&self) -> DataBufferView {
        DataBufferView::ULInt(self.data)
    }

    fn make(v: u64) -> Self {
        ULInt { data: v }
    }

    fn kind(&self) -> DataKind {
        DataKind::ULInt
    }

    fn get(&self) -> u64 {
        self.data
    }

    fn as_buf(&self) -> DataBuffer {
        DataBuffer::ULInt(self.data)
    }

    fn set(&mut self, value: u64) {
        self.data = value;
    }
}

/// A duration holder, counted in nanoseconds.
#[derive(Clone, Copy, Debug)]
pub struct Time {
    pub data: u64,
}

impl DataType for Time {
    type Inner = u64;

    open spec fn value_view(&self) -> u64 {
        self.data
    }

    open spec fn spec_make(v: u64) -> Self {
        Time { data: v }
    }

    open spec fn spec_kind() -> DataKind {
        DataKind::Time
    }

    open spec fn buf_view(&self) -> DataBufferView {
        DataBufferView::Time(self.data)
    }

    fn make(v: u64) -> Self {
        Time { data: v }
    }

    fn kind(&self) -> DataKind {
        DataKind::Time
    }

    fn get(&self) -> u64 {
        self.data
    }

    fn as_buf(&self) -> DataBuffer {
        DataBuffer::Time(self.data)
    }

    fn set(&mut self, value: u64) {
        self.data = value;
    }
}

/// A calendar-date holder, as raw bytes.
#[derive(Debug)]
pub struct Date {
    pub data: Vec<u8>,
}

impl DataType for Date {
    type Inner = Vec<u8>;

    open spec fn value_view(&self) -> Seq<u8> {
        self.data.deep_view()
    }

    open spec fn spec_make(v: Vec<u8>) -> Self {
        Date { data: v }
    }

    open spec fn spec_kind() -> DataKind {
        DataKind::Date
    }

    open spec fn buf_view(&self) -> DataBufferView {
        DataBufferView::Date(self.data@)
    }

    fn make(v: Vec<u8>) -> Self {
        Date { data: v }
    }

    fn kind(&self) -> DataKind {
        DataKind::Date
    }

    fn get(&self) -> Vec<u8> {
        copy_vec(&self.data)
    }

    fn as_buf(&self) -> DataBuffer {
        DataBuffer::Date(copy_vec(&self.data))
    }

    fn set(&mut self, value: Vec<u8>) {
        self.data = value;
    }
}

/// A time-of-day holder, as raw bytes.
#[derive(Debug)]
pub struct TimeOfDay {
    pub data: Vec<u8>,
}

impl DataType for TimeOfDay {
    type Inner = Vec<u8>;

    open spec fn value_view(&self) -> Seq<u8> {
        self.data.deep_view()
    }

    open spec fn spec_make(v: Vec<u8>) -> Self {
        TimeOfDay { data: v }
    }

    open spec fn spec_kind() -> DataKind {
        DataKind::TimeOfDay
    }

    open spec fn buf_view(&self) -> DataBufferView {
        DataBufferView::TimeOfDay(self.data@)
    }

    fn make(v: Vec<u8>) -> Self {
        TimeOfDay { data: v }
    }

    fn kind(&self) -> DataKind {
        DataKind::TimeOfDay
    }

    fn get(&self) -> Vec<u8> {
        copy_vec(&self.data)
    }

    fn as_buf(&self) -> DataBuffer {
        DataBuffer::TimeOfDay(copy_vec(&self.data))
    }

    fn set(&mut self, value: Vec<u8>) {
        self.data = value;
    }
}

/// A date-and-time holder, as raw bytes.
#[derive(Debug)]
pub struct DateTime {
    pub data: Vec<u8>,
}

impl DataType for DateTime {
    type Inner = Vec<u8>;

    open spec fn value_view(&self) -> Seq<u8> {
        self.data.deep_view()
    }

    open spec fn spec_make(v: Vec<u8>) -> Self {
        DateTime { data: v }
    }

    open spec fn spec_kind() -> DataKind {
        DataKind::DateTime
    }

    open spec fn buf_view(&self) -> DataBufferView {
        DataBufferView::DateTime(self.data@)
    }

    fn make(v: Vec<u8>) -> Self {
        DateTime { data: v }
    }

    fn kind(&self) -> DataKind {
        DataKind::DateTime
    }

    fn get(&self) -> Vec<u8> {
        copy_vec(&self.data)
    }

    fn as_buf(&self) -> DataBuffer {
        DataBuffer::DateTime(copy_vec(&self.data))
    }

    fn set(&mut self, value: Vec<u8>) {
        self.data = value;
    }
}

/// A byte-string holder.
#[derive(Debug)]
pub struct Str {
    pub data: Vec<u8>,
}

impl DataType for Str {
    type Inner = Vec<u8>;

    open spec fn value_view(&self) -> Seq<u8> {
        self.data.deep_view()
    }

    open spec fn spec_make(v: Vec<u8>) -> Self {
        Str { data: v }
    }

    open spec fn spec_kind() -> DataKind {
        DataKind::Str
    }

    open spec fn buf_view(&self) -> DataBufferView {
        DataBufferView::Str(self.data@)
    }

    fn make(v: Vec<u8>) -> Self {
        Str { data: v }
    }

    fn kind(&self) -> DataKind {
        DataKind::Str
    }

    fn get(&self) -> Vec<u8> {
        copy_vec(&self.data)
    }

    fn as_buf(&self) -> DataBuffer {
        DataBuffer::Str(copy_vec(&self.data))
    }

    fn set(&mut self, value: Vec<u8>) {
        self.data = value;
    }
}

/// A wide-string holder.
#[derive(Debug)]
pub struct WStr {
    pub data: Vec<u16>,
}

impl DataType for WStr {
    type Inner = Vec<u16>;

    open spec fn value_view(&self) -> Seq<u16> {
        self.data.deep_view()
    }

    open spec fn spec_make(v: Vec<u16>) -> Self {
        WStr { data: v }
    }

    open spec fn spec_kind() -> DataKind {
        DataKind::WStr
    }

    open spec fn buf_view(&self) -> DataBufferView {
        DataBufferView::WStr(self.data@)
    }

    fn make(v: Vec<u16>) -> Self {
        WStr { data: v }
    }

    fn kind(&self) -> DataKind {
        DataKind::WStr
    }

    fn get(&self) -> Vec<u16> {
        copy_vec(&self.data)
    }

    fn as_buf(&self) -> DataBuffer {
        DataBuffer::WStr(copy_vec(&self.data))
    }

    fn set(&mut self, value: Vec<u16>) {
        self.data = value;
    }
}

/// A boolean holder.
#[derive(Clone, Copy, Debug)]
pub struct Bool {
    pub data: bool,
}

impl DataType for Bool {
    type Inner = bool;

    open spec fn value_view(&self) -> bool {
        self.data
    }

    open spec fn spec_make(v: bool) -> Self {
        Bool { data: v }
    }

    open spec fn spec_kind() -> DataKind {
        DataKind::Bool
    }

    open spec fn buf_view(&self) -> DataBufferView {
        DataBufferView::Bool(self.data)
    }

    fn make(v: bool) -> Self {
        Bool { data: v }
    }

    fn kind(&self) -> DataKind {
        DataKind::Bool
    }

    fn get(&self) -> bool {
        self.data
    }

    fn as_buf(&self) -> DataBuffer {
        DataBuffer::Bool(self.data)
    }

    fn set(&mut self, value: bool) {
        self.data = value;
    }
}

/// An 8-bit bit-group holder.
#[derive(Clone, Copy, Debug)]
pub struct Byte {
    pub data: u8,
}

impl DataType for Byte {
    type Inner = u8;

    open spec fn value_view(&self) -> u8 {
        self.data
    }

    open spec fn spec_make(v: u8) -> Self {
        Byte { data: v }
    }

    open spec fn spec_kind() -> DataKind {
        DataKind::Byte
    }

    open spec fn buf_view(&self) -> DataBufferView {
        DataBufferView::Byte(self.data)
    }

    fn make(v: u8) -> Self {
        Byte { data: v }
    }

    fn kind(&self) -> DataKind {
        DataKind::Byte
    }

    fn get(&self) -> u8 {
        self.data
    }

    fn as_buf(&self) -> DataBuffer {
        DataBuffer::Byte(self.data)
    }

    fn set(&mut self, value: u8) {
        self.data = value;
    }
}

/// A 16-bit bit-group holder.
#[derive(Clone, Copy, Debug)]
pub struct Word {
    pub data: u16,
}

impl DataType for Word {
    type Inner = u16;

    open spec fn value_view(&self) -> u16 {
        self.data
    }

    open spec fn spec_make(v: u16) -> Self {
        Word { data: v }
    }

    open spec fn spec_kind() -> DataKind {
        DataKind::Word
    }

    open spec fn buf_view(&self) -> DataBufferView {
        DataBufferView::Word(self.data)
    }

    fn make(v: u16) -> Self {
        Word { data: v }
    }

    fn kind(&self) -> DataKind {
        DataKind::Word
    }

    fn get(&self) -> u16 {
        self.data
    }

    fn as_buf(&self) -> DataBuffer {
        DataBuffer::Word(self.data)
    }

    fn set(&mut self, value: u16) {
        self.data = value;
    }
}

/// A 32-bit bit-group holder.
#[derive(Clone, Copy, Debug)]
pub struct DWord {
    pub data: u32,
}

impl DataType for DWord {
    type Inner = u32;

    open spec fn value_view(&self) -> u32 {
        self.data
    }

    open spec fn spec_make(v: u32) -> Self {
        DWord { data: v }
    }

    open spec fn spec_kind() -> DataKind {
        DataKind::DWord
    }

    open spec fn buf_view(&self) -> DataBufferView {
        DataBufferView::DWord(self.data)
    }

    fn make(v: u32) -> Self {
        DWord { data: v }
    }

    fn kind(&self) -> DataKind {
        DataKind::DWord
    }

    fn get(&self) -> u32 {
        self.data
    }

    fn as_buf(&self) -> DataBuffer {
        DataBuffer::DWord(self.data)
    }

    fn set(&mut self, value: u32) {
        self.data = value;
    }
}

/// A 64-bit bit-group holder.
#[derive(Clone, Copy, Debug)]
pub struct LWord {
    pub data: u64,
}

impl DataType for LWord {
    type Inner = u64;

    open spec fn value_view(&self) -> u64 {
        self.data
    }

    open spec fn spec_make(v: u64) -> Self {
        LWord { data: v }
    }

    open spec fn spec_kind() -> DataKind {
        DataKind::LWord
    }

    open spec fn buf_view(&self) -> DataBufferView {
        DataBufferView::LWord(self.data)
    }

    fn make(v: u64) -> Self {
        LWord { data: v }
    }

    fn kind(&self) -> DataKind {
        DataKind::LWord
    }

    fn get(&self) -> u64 {
        self.data
    }

    fn as_buf(&self) -> DataBuffer {
        DataBuffer::LWord(self.data)
    }

    fn set(&mut self, value: u64) {
        self.data = value;
    }
}

/// A data input or output of a function block, tagged with its direction.
#[derive(Debug)]
pub struct Data<D: Direction, T: DataType> {
    pub _direction_marker: core::marker::PhantomData<D>,
    pub value: T,
}

impl<D: Direction, T: DataType> Data<D, T> {
    /// The held value, at the level contracts speak of.
    pub open spec fn value_view(self) -> <T::Inner as DeepView>::V {
        self.value.value_view()
    }

    /// The held value as a buffer, at the level contracts speak of.
    pub open spec fn buf_view(self) -> DataBufferView {
        self.value.buf_view()
    }

    /// The same field holding exactly `v`, for contracts.
    pub open spec fn spec_with(self, v: T::Inner) -> Self {
        Data { value: T::spec_make(v), ..self }
    }

    /// A fresh field holding `v`.
    pub fn of(v: T::Inner) -> (r: Self)
        ensures
            r == (Data {
                _direction_marker: core::marker::PhantomData::<D>,
                value: T::spec_make(v),
            }),
    {
        Data { _direction_marker: core::marker::PhantomData, value: T::make(v) }
    }

    /// Reads the held value.
    pub fn read(&self) -> (r: T::Inner)
        ensures
            r.deep_view() == self.value_view(),
    {
        self.value.get()
    }

    /// Reads the held value as a type-erased buffer.
    pub fn as_buf(&self) -> (r: DataBuffer)
        ensures
            r@ == self.buf_view(),
    {
        self.value.as_buf()
    }

    /// The declared kind of the field.
    pub fn as_kind(&self) -> (k: DataKind)
        ensures
            k == T::spec_kind(),
    {
        self.value.kind()
    }
}

impl<T: DataType> Data<In, T> {
    /// Overwrites an input field from a received value.
    pub fn update(&mut self, value: T::Inner)
        ensures
            *final(self) == old(self).spec_with(value),
    {
        self.value.set(value);
    }
}

impl<T: DataType> Data<Out, T> {
    /// Overwrites an output field from a computed value.
    pub fn write(&mut self, value: T::Inner)
        ensures
            *final(self) == old(self).spec_with(value),
    {
        self.value.set(value);
    }
}

/// Flips a boolean field in place.
pub fn toggle<D: Direction>(data: &mut Data<D, Bool>)
    ensures
        *final(data) == old(data).spec_with(!old(data).value_view()),
{
    let old_value = data.value.get();
    data.value.set(!old_value);
}

} // verus!
