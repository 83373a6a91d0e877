//! AMD I/O Virtualization Technology (AMD-Vi): data-structure formats, ACPI
//! IVRS parsing and the MMIO register map.
pub mod bits;
pub mod cmd;
pub mod dte;
pub mod events;
pub mod ppr;
pub mod irte;
pub mod regs;
pub mod pagetables;
pub mod ivrs;
