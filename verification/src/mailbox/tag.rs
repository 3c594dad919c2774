//! The tags that the firmware knows.

use crate::mailbox::list::Tag;
use crate::mailbox::tag_res::{Handle, OperationFailed, Ptr, Size};
use vstd::prelude::*;

verus! {

/// Asks for the firmware revision.
pub struct GetFirmwareVersion;

impl Tag for GetFirmwareVersion {
    const ID: u32 = 0x1;

    const LEN: usize = 1;

    type Res = u32;

    open spec fn id_value() -> u32 {
        0x1
    }

    open spec fn len_value() -> int {
        1
    }

    open spec fn payload(&self) -> Seq<u32> {
        seq![0u32]
    }

    open spec fn decoded(from: Seq<u32>) -> u32 {
        from[0]
    }

    proof fn lemma_shape() {
    }

    proof fn lemma_payload(&self) {
    }

    fn serialize(&self, buffer: &mut Vec<u32>) {
        buffer.push(0);
        assert(buffer@ == old(buffer)@ + self.payload());
    }

    fn deserialize(from: &[u32]) -> (r: u32) {
        from[0]
    }
}

/// Asks for a frame buffer aligned to 16 bytes.
pub struct AllocateBuffer;

impl Tag for AllocateBuffer {
    const ID: u32 = 0x40001;

    const LEN: usize = 2;

    type Res = Ptr;

    open spec fn id_value() -> u32 {
        0x40001
    }

    open spec fn len_value() -> int {
        2
    }

    open spec fn payload(&self) -> Seq<u32> {
        seq![16u32, 0u32]
    }

    open spec fn decoded(from: Seq<u32>) -> Ptr {
        Ptr { ptr: from[0] as usize, bytes: from[1] as usize }
    }

    proof fn lemma_shape() {
    }

    proof fn lemma_payload(&self) {
    }

    fn serialize(&self, buffer: &mut Vec<u32>) {
        buffer.push(16);
        buffer.push(0);
        assert(buffer@ == old(buffer)@ + self.payload());
    }

    fn deserialize(from: &[u32]) -> (r: Ptr) {
        Ptr { ptr: from[0] as usize, bytes: from[1] as usize }
    }
}

/// Sets the size of the frame buffer in memory.
pub struct SetPhysicalSize {
    pub width: u32,
    pub height: u32,
}

impl Tag for SetPhysicalSize {
    const ID: u32 = 0x48003;

    const LEN: usize = 2;

    type Res = ();

    open spec fn id_value() -> u32 {
        0x48003
    }

    open spec fn len_value() -> int {
        2
    }

    open spec fn payload(&self) -> Seq<u32> {
        seq![self.width, self.height]
    }

    open spec fn decoded(from: Seq<u32>) -> () {
        ()
    }

    proof fn lemma_shape() {
    }

    proof fn lemma_payload(&self) {
    }

    fn serialize(&self, buffer: &mut Vec<u32>) {
        buffer.push(self.width);
        buffer.push(self.height);
        assert(buffer@ == old(buffer)@ + self.payload());
    }

    fn deserialize(from: &[u32]) -> (r: ()) {
        ()
    }
}

/// Asks for the size of the frame buffer in memory.
pub struct GetPhysicalSize;

impl Tag for GetPhysicalSize {
    const ID: u32 = 0x40003;

    const LEN: usize = 2;

    type Res = Size;

    open spec fn id_value() -> u32 {
        0x40003
    }

    open spec fn len_value() -> int {
        2
    }

    open spec fn payload(&self) -> Seq<u32> {
        seq![0u32, 0u32]
    }

    open spec fn decoded(from: Seq<u32>) -> Size {
        Size { width: from[0], height: from[1] }
    }

    proof fn lemma_shape() {
    }

    proof fn lemma_payload(&self) {
    }

    fn serialize(&self, buffer: &mut Vec<u32>) {
        buffer.push(0);
        buffer.push(0);
        assert(buffer@ == old(buffer)@ + self.payload());
    }

    fn deserialize(from: &[u32]) -> (r: Size) {
        Size { width: from[0], height: from[1] }
    }
}

/// Sets the size of the part of the frame buffer that is shown.
pub struct SetVirtualSize {
    pub width: u32,
    pub height: u32,
}

impl Tag for SetVirtualSize {
    const ID: u32 = 0x48004;

    const LEN: usize = 2;

    type Res = ();

    open spec fn id_value() -> u32 {
        0x48004
    }

    open spec fn len_value() -> int {
        2
    }

    open spec fn payload(&self) -> Seq<u32> {
        seq![self.width, self.height]
    }

    open spec fn decoded(from: Seq<u32>) -> () {
        ()
    }

    proof fn lemma_shape() {
    }

    proof fn lemma_payload(&self) {
    }

    fn serialize(&self, buffer: &mut Vec<u32>) {
        buffer.push(self.width);
        buffer.push(self.height);
        assert(buffer@ == old(buffer)@ + self.payload());
    }

    fn deserialize(from: &[u32]) -> (r: ()) {
        ()
    }
}

/// Asks for the size of the part of the frame buffer that is shown.
pub struct GetVirtualSize;

impl Tag for GetVirtualSize {
    const ID: u32 = 0x40004;

    const LEN: usize = 2;

    type Res = Size;

    open spec fn id_value() -> u32 {
        0x40004
    }

    open spec fn len_value() -> int {
        2
    }

    open spec fn payload(&self) -> Seq<u32> {
        seq![0u32, 0u32]
    }

    open spec fn decoded(from: Seq<u32>) -> Size {
        Size { width: from[0], height: from[1] }
    }

    proof fn lemma_shape() {
    }

    proof fn lemma_payload(&self) {
    }

    fn serialize(&self, buffer: &mut Vec<u32>) {
        buffer.push(0);
        buffer.push(0);
        assert(buffer@ == old(buffer)@ + self.payload());
    }

    fn deserialize(from: &[u32]) -> (r: Size) {
        Size { width: from[0], height: from[1] }
    }
}

/// Sets the number of bits per pixel.
pub struct SetDepth(pub u32);

impl Tag for SetDepth {
    const ID: u32 = 0x48005;

    const LEN: usize = 1;

    type Res = ();

    open spec fn id_value() -> u32 {
        0x48005
    }

    open spec fn len_value() -> int {
        1
    }

    open spec fn payload(&self) -> Seq<u32> {
        seq![self.0]
    }

    open spec fn decoded(from: Seq<u32>) -> () {
        ()
    }

    proof fn lemma_shape() {
    }

    proof fn lemma_payload(&self) {
    }

    fn serialize(&self, buffer: &mut Vec<u32>) {
        buffer.push(self.0);
        assert(buffer@ == old(buffer)@ + self.payload());
    }

    fn deserialize(from: &[u32]) -> (r: ()) {
        ()
    }
}

/// Asks for the number of bits per pixel.
pub struct GetDepth;

impl Tag for GetDepth {
    const ID: u32 = 0x48005;

    const LEN: usize = 1;

    type Res = u32;

    open spec fn id_value() -> u32 {
        0x48005
    }

    open spec fn len_value() -> int {
        1
    }

    open spec fn payload(&self) -> Seq<u32> {
        seq![0u32]
    }

    open spec fn decoded(from: Seq<u32>) -> u32 {
        from[0]
    }

    proof fn lemma_shape() {
    }

    proof fn lemma_payload(&self) {
    }

    fn serialize(&self, buffer: &mut Vec<u32>) {
        buffer.push(0);
        assert(buffer@ == old(buffer)@ + self.payload());
    }

    fn deserialize(from: &[u32]) -> (r: u32) {
        from[0]
    }
}

/// Asks for the number of bytes per line of the frame buffer.
pub struct GetPitch;

impl Tag for GetPitch {
    const ID: u32 = 0x40008;

    const LEN: usize = 2;

    type Res = u32;

    open spec fn id_value() -> u32 {
        0x40008
    }

    open spec fn len_value() -> int {
        2
    }

    open spec fn payload(&self) -> Seq<u32> {
        seq![0u32, 0u32]
    }

    open spec fn decoded(from: Seq<u32>) -> u32 {
        from[0]
    }

    proof fn lemma_shape() {
    }

    proof fn lemma_payload(&self) {
    }

    fn serialize(&self, buffer: &mut Vec<u32>) {
        buffer.push(0);
        buffer.push(0);
        assert(buffer@ == old(buffer)@ + self.payload());
    }

    fn deserialize(from: &[u32]) -> (r: u32) {
        from[0]
    }
}

/// Asks for the memory that belongs to the processor.
pub struct GetArmMemory;

impl Tag for GetArmMemory {
    const ID: u32 = 0x10005;

    const LEN: usize = 2;

    type Res = Ptr;

    open spec fn id_value() -> u32 {
        0x10005
    }

    open spec fn len_value() -> int {
        2
    }

    open spec fn payload(&self) -> Seq<u32> {
        seq![0u32, 0u32]
    }

    open spec fn decoded(from: Seq<u32>) -> Ptr {
        Ptr { ptr: from[0] as usize, bytes: from[1] as usize }
    }

    proof fn lemma_shape() {
    }

    proof fn lemma_payload(&self) {
    }

    fn serialize(&self, buffer: &mut Vec<u32>) {
        buffer.push(0);
        buffer.push(0);
        assert(buffer@ == old(buffer)@ + self.payload());
    }

    fn deserialize(from: &[u32]) -> (r: Ptr) {
        Ptr { ptr: from[0] as usize, bytes: from[1] as usize }
    }
}

/// Switches the display off or on; the firmware answers with the state it
/// took.
pub struct BlankScreen(pub bool);

impl Tag for BlankScreen {
    const ID: u32 = 0x40002;

    const LEN: usize = 1;

    type Res = bool;

    open spec fn id_value() -> u32 {
        0x40002
    }

    open spec fn len_value() -> int {
        1
    }

    open spec fn payload(&self) -> Seq<u32> {
        seq![if self.0 { 1u32 } else { 0u32 }]
    }

    open spec fn decoded(from: Seq<u32>) -> bool {
        from[0] & 1 == 1
    }

    proof fn lemma_shape() {
    }

    proof fn lemma_payload(&self) {
    }

    fn serialize(&self, buffer: &mut Vec<u32>) {
        buffer.push(if self.0 { 1 } else { 0 });
        assert(buffer@ == old(buffer)@ + self.payload());
    }

    fn deserialize(from: &[u32]) -> (r: bool) {
        from[0] & 1 == 1
    }
}

/// Asks for a block of graphics memory of `size` bytes, aligned to
/// `alignment` bytes, with the given allocation flags.
pub struct AllocateMemory {
    pub size: u32,
    pub alignment: u32,
    pub flags: u32,
}

impl Tag for AllocateMemory {
    const ID: u32 = 0x3000c;

    const LEN: usize = 3;

    type Res = Handle;

    open spec fn id_value() -> u32 {
        0x3000c
    }

    open spec fn len_value() -> int {
        3
    }

    open spec fn payload(&self) -> Seq<u32> {
        seq![self.size, self.alignment, self.flags]
    }

    open spec fn decoded(from: Seq<u32>) -> Handle {
        Handle(from[0])
    }

    proof fn lemma_shape() {
    }

    proof fn lemma_payload(&self) {
    }

    fn serialize(&self, buffer: &mut Vec<u32>) {
        buffer.push(self.size);
        buffer.push(self.alignment);
        buffer.push(self.flags);
        assert(buffer@ == old(buffer)@ + self.payload());
    }

    fn deserialize(from: &[u32]) -> (r: Handle) {
        Handle(from[0])
    }
}

/// Gives a block of graphics memory back. The firmware answers with a status
/// word, zero for success.
pub struct ReleaseMemory(pub Handle);

impl Tag for ReleaseMemory {
    const ID: u32 = 0x3000f;

    const LEN: usize = 1;

    type Res = Result<(), OperationFailed>;

    open spec fn id_value() -> u32 {
        0x3000f
    }

    open spec fn len_value() -> int {
        1
    }

    open spec fn payload(&self) -> Seq<u32> {
        seq![self.0.0]
    }

    open spec fn decoded(from: Seq<u32>) -> Result<(), OperationFailed> {
        if from[0] == 0 {
            Ok(())
        } else {
            Err(OperationFailed { status: from[0] })
        }
    }

    proof fn lemma_shape() {
    }

    proof fn lemma_payload(&self) {
    }

    fn serialize(&self, buffer: &mut Vec<u32>) {
        buffer.push(self.0.0);
        assert(buffer@ == old(buffer)@ + self.payload());
    }

    fn deserialize(from: &[u32]) -> (r: Result<(), OperationFailed>) {
        let status = from[0];
        if status == 0 {
            Ok(())
        } else {
            Err(OperationFailed { status })
        }
    }
}

} // verus!
