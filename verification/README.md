# espcam

The verified core of an ESP32-S3 camera firmware that captures JPEG frames,
runs face and pedestrian detection on them and streams them to browsers over
WebSocket.

- `src/` is the library, verified with Verus: camera resolutions and driver
  status codes, the JPEG frame types, frame preprocessing (decode buffer
  sizing, centred square crop, nearest-neighbour resize to 128x128, input
  quantization), the BlazeFace anchor grid, tensor sizing, the profiling
  trace and its JSON, and the streaming decisions.
- `tests/` exercises the library on concrete values.
- `app/` is the firmware around it: Wi-Fi, the camera driver, ESP-DL and
  TensorFlow Lite calls, the HTTP/WebSocket server, and the floating-point
  parts of detection.
