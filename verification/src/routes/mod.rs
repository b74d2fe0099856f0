pub mod tasks_socket;
