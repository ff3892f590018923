pub mod mv;
