//! The interrupt front end and the console of a small bare-metal x86 kernel,
//! as a verified library.
//!
//! The library holds the decisions: what the scancode queue contains, which
//! bytes go to which controller port and in what order, what the vector
//! table installs, in which order the machine is brought up, how a typed
//! line is interpreted and what the screen shows. It touches no hardware.
//! The program around it reads ports, owns the statics and the locks around
//! them, loads the processor tables and carries out the port accesses that
//! the library returns.
//!
//! - [`queue`]: the bounded scancode queue between handler and mainline.
//! - [`interrupts`]: the shared state and the bodies of the device handlers.
//! - [`pic`]: the two cascaded interrupt controllers.
//! - [`pit`]: the interval timer.
//! - [`port`]: port accesses as values.
//! - [`idt`]: the vector table.
//! - [`gdt`]: the descriptor table and the task state segment.
//! - [`boot`]: the order of the bring-up.
//! - [`shell`]: the command line.
//! - [`screen`], [`console`], [`text`]: the text screen and what is shown on it.

pub mod boot;
pub mod console;
pub mod gdt;
pub mod idt;
pub mod interrupts;
pub mod pic;
pub mod pit;
pub mod port;
pub mod queue;
pub mod screen;
pub mod shell;
pub mod text;
