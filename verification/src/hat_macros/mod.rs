pub mod entry_macro;
