//! Core logic of a clip-inventory and concatenation command-line tool:
//! mode resolution, default-path construction, scan aggregation with
//! per-item failure isolation, fixed-width report rendering, and the
//! error/exit-code taxonomy.

pub mod errors;
pub mod external;
pub mod modes;
pub mod numfmt;
pub mod report;
pub mod scan;
