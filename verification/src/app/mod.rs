pub mod snapt;
