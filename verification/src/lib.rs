//! Core logic of a magnetic/Hall-effect analog-switch keyboard controller.
//!
//! Continuously sampled analog switch-travel readings are turned into
//! debounced, self-calibrating key-down/key-up events and assembled into
//! standard USB HID keyboard reports.  The signal chain is:
//!
//! * [`keys`]: the per-key adaptive filter (smoothing, auto-ranging,
//!   hysteretic on/off detection) and the mux-phase addressing types;
//! * [`keymap`]: the static key-name/index bijection and the
//!   (key name, layer) to keyboard-usage-code partial function;
//! * [`bus`]: the bounded, multi-subscriber key-change event bus with
//!   non-blocking publish and per-subscriber lag accounting;
//! * [`scan`]: routing of hardware sample bursts into the key filters;
//! * [`keysdown`]: the bounded set of currently-down usage codes, held in a
//!   fixed-capacity heapless set behind trusted wrappers;
//! * [`hid`]: the USB HID keyboard task state: the set of currently-down
//!   keycodes, rollover handling, report assembly, and the device
//!   suspend/remote-wakeup interplay.
//!
//! Hardware access (ADC bursts, mux line selection, the USB transport)
//! lives outside this crate; it hands plain sample values in and carries
//! the assembled reports out.

pub mod bus;
pub mod hid;
pub mod keymap;
pub mod scan;
pub mod keys;
pub mod keysdown;
