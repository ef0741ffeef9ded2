pub mod console_laws;
pub mod gdt;
pub mod harness;
pub mod values;
pub mod vga_buffer;

pub use harness::{report_failure, test_runner, Testable};
