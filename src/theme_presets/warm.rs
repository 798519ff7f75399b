pub mod t_rusty_ruins;
