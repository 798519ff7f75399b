pub mod t_midnight_blurple;
