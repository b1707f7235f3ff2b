[package]
name = "qr_decoder"
version = "0.1.0"
edition = "2021"
publish = false

[dependencies]
image = "*"
rqrr = "*"
yew = { version = "0.21", features = ["csr"] }
wasm-bindgen = "0.2"
js-sys = "0.3"
web-sys = { version = "0.3", features = ["Window", "Document", "Element", "HtmlInputElement", "Event", "EventTarget", "DragEvent", "DataTransfer", "DataTransferItem", "DataTransferItemList", "File", "FileList", "Blob"] }
gloo-file = "0.3"

[dev-dependencies]
qrcode = { version = "*", default-features = false }
