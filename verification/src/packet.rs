//! The wire format of the magic packet.
//!
//! ```text
//! offset 0..6    six bytes 0xFF, the synchronisation header
//! offset 6..102  the hardware address, sixteen times in a row
//! ```

use vstd::prelude::*;

verus! {

/// Bytes in a hardware address.
pub const MAC_SIZE: usize = 6;

/// How many times a magic packet repeats the hardware address.
pub const MAC_PER_MAGIC: usize = 16;

/// Bytes in the synchronisation header.
pub const HEADER_SIZE: usize = 6;

/// The value of every byte of the synchronisation header.
pub const HEADER_BYTE: u8 = 0xFF;

/// Bytes in a whole magic packet.
pub const PACKET_SIZE: usize = HEADER_SIZE + MAC_PER_MAGIC * MAC_SIZE;

/// The synchronisation header that opens every magic packet.
pub open spec fn sync_header() -> Seq<u8> {
    Seq::new(HEADER_SIZE as nat, |i: int| HEADER_BYTE)
}

/// `count` copies of `block`, one directly after the other.
pub open spec fn repeated(block: Seq<u8>, count: nat) -> Seq<u8>
    decreases count,
{
    if count == 0 {
        Seq::empty()
    } else {
        repeated(block, (count - 1) as nat) + block
    }
}

/// The magic packet for the hardware address `mac`.
pub open spec fn magic_packet(mac: Seq<u8>) -> Seq<u8>
    recommends
        mac.len() == MAC_SIZE,
{
    sync_header() + repeated(mac, MAC_PER_MAGIC as nat)
}

/// The `index`-th of the address blocks that follow the header of `packet`.
pub open spec fn address_block(packet: Seq<u8>, index: int) -> Seq<u8> {
    packet.subrange(HEADER_SIZE + MAC_SIZE * index, HEADER_SIZE + MAC_SIZE * index + MAC_SIZE)
}

/// Whether `packet` has the shape of the magic packet for `mac`: the right
/// length, the header of 0xFF bytes, then nothing but copies of `mac`.
pub open spec fn is_magic_packet(packet: Seq<u8>, mac: Seq<u8>) -> bool {
    &&& packet.len() == PACKET_SIZE
    &&& forall|i: int| 0 <= i < HEADER_SIZE ==> packet[i] == HEADER_BYTE
    &&& forall|k: int| 0 <= k < MAC_PER_MAGIC ==> #[trigger] address_block(packet, k) == mac
}

/// `count` copies of a block are `count` times as long as the block, and
/// byte `i` of them is byte `i % block.len()` of the block.
pub proof fn lemma_repeated(block: Seq<u8>, count: nat)
    requires
        block.len() > 0,
    ensures
        repeated(block, count).len() == count * block.len(),
        forall|i: int|
            0 <= i < count * block.len() ==> #[trigger] repeated(block, count)[i] == block[i
                % (block.len() as int)],
    decreases count,
{
    if count > 0 {
        let shorter = (count - 1) as nat;
        lemma_repeated(block, shorter);
        assert(count * block.len() == shorter * block.len() + block.len()) by (nonlinear_arith)
            requires
                count == shorter + 1,
        ;
        assert forall|i: int| 0 <= i < count * block.len() implies #[trigger] repeated(
            block,
            count,
        )[i] == block[i % (block.len() as int)] by {
            if i >= shorter * block.len() {
                let offset = i - shorter * block.len();
                assert(i % (block.len() as int) == offset) by (nonlinear_arith)
                    requires
                        i == shorter * block.len() + offset,
                        0 <= offset < block.len(),
                ;
            }
        }
    }
}

/// The shape pins the packet down: for a six-byte address, a byte sequence
/// is 102 bytes long, opens with six 0xFF bytes and goes on with sixteen
/// blocks equal to the address if and only if it is `magic_packet` of that
/// address.
pub proof fn lemma_shape_is_magic_packet(packet: Seq<u8>, mac: Seq<u8>)
    requires
        mac.len() == MAC_SIZE,
    ensures
        is_magic_packet(packet, mac) <==> packet == magic_packet(mac),
{
    let expected = magic_packet(mac);
    lemma_repeated(mac, MAC_PER_MAGIC as nat);
    assert forall|k: int| 0 <= k < MAC_PER_MAGIC implies #[trigger] address_block(expected, k)
        == mac by {
        let block = address_block(expected, k);
        assert forall|j: int| 0 <= j < MAC_SIZE implies block[j] == mac[j] by {
            let i = MAC_SIZE * k + j;
            assert(block[j] == repeated(mac, MAC_PER_MAGIC as nat)[i]);
        }
        assert(block =~= mac);
    }
    assert(is_magic_packet(expected, mac));
    if is_magic_packet(packet, mac) {
        assert forall|i: int| 0 <= i < PACKET_SIZE implies packet[i] == expected[i] by {
            if i >= HEADER_SIZE {
                let k = (i - HEADER_SIZE) / (MAC_SIZE as int);
                let j = (i - HEADER_SIZE) % (MAC_SIZE as int);
                assert(address_block(packet, k)[j] == packet[i]);
                assert(address_block(expected, k)[j] == expected[i]);
            }
        }
        assert(packet =~= expected);
    }
}

} // verus!
