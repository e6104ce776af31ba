use qbittorrent_mcp_rs::client::QBitClient;
use qbittorrent_mcp_rs::server::mcp::McpServer;

#[test]
fn test_stdio_server_instantiation() {
    let _client = QBitClient::new("http://localhost:8080", "admin", "adminadmin", false);
    let _server = McpServer::new(vec!["default".to_string()], false);
}

#[test]
fn test_server_shutdown_status() {
    let _client = QBitClient::new("http://localhost:8080", "admin", "adminadmin", false);
    let mut server = McpServer::new(vec!["default".to_string()], false);
    assert!(server.is_running());
    server.shutdown();
    assert!(!server.is_running());
}
