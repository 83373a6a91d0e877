//! Intel Virtualization Technology for Directed I/O (VT-d): data-structure
//! formats, ACPI DMAR parsing and the MMIO register map.
pub mod bits;
pub mod context;
pub mod fault;
pub mod irte;
pub mod qi;
pub mod regs;
pub mod pagetables;
pub mod dmar;
