//! Driver core for a half-duplex LoRa transceiver: the radio settings and
//! driver parameter records, the Idle/Txing/Rxing PHY state machine, the
//! tick-counted timeout coordinator and the interrupt dispatcher.
use vstd::prelude::*;

pub mod dispatch;
pub mod phy;
pub mod radio;
pub mod rx_buffer;
pub mod timer;

pub use dispatch::Dispatcher;
pub use phy::{LorawanRadio, PhyError, PhyEvent, PhyResponse, State};
pub use radio::{Event, Response, Sx12xx};
pub use timer::TimerContext;
