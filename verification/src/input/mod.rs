pub mod drag_drop;
pub mod drawing;
