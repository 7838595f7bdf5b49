//! A binary wire protocol that multiplexes a closed set of packet types: each wire
//! unit is a fixed-width identifier followed by the payload of the type bound to it.
pub mod buffer;
pub mod dispatch;
pub mod id;
pub mod packet;
pub mod payloads;
pub mod union;

pub use bytes::{Buf, BufMut, Bytes, BytesMut};
pub use dispatch::{deserialize, serialize, try_deserialize};
pub use id::PacketId;
pub use packet::Packet;
pub use union::{Cons, PacketUnion, Single};
