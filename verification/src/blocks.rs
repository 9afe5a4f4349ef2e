pub mod carpaint;
pub mod carpaint_simple;
pub mod dispatch;
pub mod general;
pub mod lambert;
pub mod skinned_general;
