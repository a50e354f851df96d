//! What the commands and keys are for, stated of what is seen before and after:
//! rectangles, keys, selected rows and the requests that are made.

pub mod asking;
pub mod choosing;
pub mod clipping;
pub mod commanding;
pub mod completing;
pub mod counting;
pub mod deciding;
pub mod drawing;
pub mod following;
pub mod jumping;
pub mod leaving;
pub mod pointing;
pub mod popups;
pub mod prompting;
pub mod routing;
pub mod serving;
pub mod staging;
pub mod steering;
pub mod telling;
pub mod viewing;
pub mod watching;
pub mod writing;
