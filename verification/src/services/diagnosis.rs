pub mod diag_point;
