use vstd::prelude::*;

verus! {

/// Failures of camera capture.
#[derive(Debug, Clone, PartialEq, Eq)]
pub enum CameraError {
    Open(String),
    Format(String),
    Buffer,
    Stream(String),
    Timeout,
    NotInitialized,
}

/// Which way a camera looks.
#[derive(Debug, Clone, Copy, PartialEq, Eq, Structural)]
pub enum CameraType {
    /// Cabin-facing infrared camera for driver monitoring.
    Cabin,
    /// Road-facing camera for the road scene.
    Road,
}

/// Pixel encodings a camera can deliver.
#[derive(Debug, Clone, Copy, PartialEq, Eq, Structural)]
pub enum PixelFormat {
    Rgb24,
    Mjpeg,
    H264,
    Yuyv,
    Nv12,
}

/// Pixel encodings as numbered by the capture driver.
#[derive(Debug, Clone, Copy, PartialEq, Eq, Structural)]
pub enum CPixelFormat {
    Rgb24,
    Mjpeg,
    H264,
    Yuyv,
    Nv12,
}

/// Camera kinds as numbered by the capture driver.
#[derive(Debug, Clone, Copy, PartialEq, Eq, Structural)]
pub enum CCameraType {
    CabinIr,
    Road,
    External,
}

pub open spec fn pixel_format_of(f: CPixelFormat) -> PixelFormat {
    match f {
        CPixelFormat::Rgb24 => PixelFormat::Rgb24,
        CPixelFormat::Mjpeg => PixelFormat::Mjpeg,
        CPixelFormat::H264 => PixelFormat::H264,
        CPixelFormat::Yuyv => PixelFormat::Yuyv,
        CPixelFormat::Nv12 => PixelFormat::Nv12,
    }
}

impl From<CPixelFormat> for PixelFormat {
    fn from(f: CPixelFormat) -> (r: PixelFormat)
        ensures
            r == pixel_format_of(f),
    {
        match f {
            CPixelFormat::Rgb24 => PixelFormat::Rgb24,
            CPixelFormat::Mjpeg => PixelFormat::Mjpeg,
            CPixelFormat::H264 => PixelFormat::H264,
            CPixelFormat::Yuyv => PixelFormat::Yuyv,
            CPixelFormat::Nv12 => PixelFormat::Nv12,
        }
    }
}

impl vstd::std_specs::convert::FromSpecImpl<CPixelFormat> for PixelFormat {
    open spec fn obeys_from_spec() -> bool {
        true
    }

    open spec fn from_spec(f: CPixelFormat) -> PixelFormat {
        pixel_format_of(f)
    }
}

/// Failures of the inertial sensor.
#[derive(Debug, Clone, PartialEq, Eq)]
pub enum ImuError {
    Open(String),
    Read,
    NotInitialized,
}

/// Raw inertial reading as handed over by the sensor driver.
#[derive(Debug, Clone, Copy, PartialEq, Eq)]
pub struct CImuData {
    pub accel_x: i16,
    pub accel_y: i16,
    pub accel_z: i16,
    pub gyro_x: i16,
    pub gyro_y: i16,
    pub gyro_z: i16,
    pub temperature: i16,
    pub timestamp_ns: u64,
}

/// Settings of the inertial sensor.
#[derive(Debug, Clone, PartialEq, Eq)]
pub struct ImuConfig {
    /// Bus device path.
    pub device: String,
    /// Bus address.
    pub address: u8,
    /// Sample rate (Hz).
    pub sample_rate: u32,
}

impl Default for ImuConfig {
    fn default() -> (r: ImuConfig)
        ensures
            r.device@ == "/dev/i2c-1"@,
            r.address == 0x68,
            r.sample_rate == 100,
    {
        ImuConfig { device: "/dev/i2c-1".to_owned(), address: 0x68, sample_rate: 100 }
    }
}

/// Capture settings of one camera.
#[derive(Debug, Clone, PartialEq, Eq)]
pub struct CameraConfig {
    pub device: String,
    pub camera_type: CameraType,
    pub width: u32,
    pub height: u32,
    pub fps: u32,
    pub enable_ir: bool,
}

impl CameraConfig {
    /// The cabin camera: 640x480 at 15 fps, infrared on.
    pub fn cabin() -> (r: CameraConfig)
        ensures
            r.device@ == "/dev/video0"@,
            r.camera_type == CameraType::Cabin,
            r.width == 640,
            r.height == 480,
            r.fps == 15,
            r.enable_ir,
    {
        CameraConfig {
            device: "/dev/video0".to_owned(),
            camera_type: CameraType::Cabin,
            width: 640,
            height: 480,
            fps: 15,
            enable_ir: true,
        }
    }

    /// The road camera: 1920x1080 at 30 fps, infrared off.
    pub fn road() -> (r: CameraConfig)
        ensures
            r.device@ == "/dev/video1"@,
            r.camera_type == CameraType::Road,
            r.width == 1920,
            r.height == 1080,
            r.fps == 30,
            !r.enable_ir,
    {
        CameraConfig {
            device: "/dev/video1".to_owned(),
            camera_type: CameraType::Road,
            width: 1920,
            height: 1080,
            fps: 30,
            enable_ir: false,
        }
    }
}

impl Default for CameraConfig {
    fn default() -> (r: CameraConfig)
        ensures
            r.device@ == "/dev/video0"@,
            r.camera_type == CameraType::Cabin,
            r.width == 640,
            r.height == 480,
            r.fps == 15,
            r.enable_ir,
    {
        CameraConfig::cabin()
    }
}

/// Luminance of an RGB pixel, with weights 0.299, 0.587 and 0.114 in thousandths.
pub open spec fn luma(r: u8, g: u8, b: u8) -> u8 {
    ((299 * r + 587 * g + 114 * b) / 1000) as u8
}

/// Index of the first byte of pixel `(x, y)` in a row-major RGB buffer.
pub open spec fn byte_index(width: int, x: int, y: int) -> int {
    (y * width + x) * 3
}

/// The three bytes of pixel `(x, y)`.
pub open spec fn pixel_bytes(d: Seq<u8>, width: int, x: int, y: int) -> Seq<u8> {
    d.subrange(byte_index(width, x, y), byte_index(width, x, y) + 3)
}

/// Rows `y .. y + rows` of the region starting at column `x`, `w` pixels wide.
pub open spec fn crop_rows(d: Seq<u8>, width: int, x: int, y: int, w: int, rows: nat) -> Seq<u8>
    decreases rows,
{
    if rows == 0 {
        Seq::empty()
    } else {
        crop_rows(d, width, x, y, w, (rows - 1) as nat) + d.subrange(
            byte_index(width, x, y + rows - 1),
            byte_index(width, x + w, y + rows - 1),
        )
    }
}

/// Source coordinate sampled for destination coordinate `p` when `src`
/// pixels are scaled to `dst`.
pub open spec fn nearest(p: int, src: int, dst: int) -> int {
    if p * src / dst < src - 1 {
        p * src / dst
    } else {
        src - 1
    }
}

/// The first `k` pixels, in row-major order, of the image resized to `nw`
/// pixels per row by nearest-neighbour sampling.
pub open spec fn resized_prefix(d: Seq<u8>, width: int, height: int, nw: int, nh: int, k: nat) -> Seq<u8>
    decreases k,
{
    if k == 0 {
        Seq::empty()
    } else {
        resized_prefix(d, width, height, nw, nh, (k - 1) as nat) + pixel_bytes(
            d,
            width,
            nearest((k - 1) % nw, width, nw),
            nearest((k - 1) / nw, height, nh),
        )
    }
}

/// A decoded RGB frame, row-major, three bytes per pixel.
#[derive(Debug, Clone)]
pub struct VideoFrame {
    pub data: Vec<u8>,
    pub width: u32,
    pub height: u32,
    /// Capture time (ns).
    pub timestamp_ns: u64,
    /// Sequence number of the frame.
    pub sequence: u32,
}

proof fn lemma_in_image(width: int, height: int, x: int, y: int)
    requires
        0 <= x < width,
        0 <= y < height,
    ensures
        0 <= byte_index(width, x, y),
        byte_index(width, x, y) + 3 <= width * height * 3,
{
    assert(y * width + x < width * height) by (nonlinear_arith)
        requires
            0 <= x < width,
            0 <= y < height,
    ;
    assert(0 <= y * width) by (nonlinear_arith)
        requires
            0 <= y,
            0 <= width,
    ;
}

impl VideoFrame {
    /// The buffer holds exactly `width * height` pixels.
    pub open spec fn wf(&self) -> bool {
        self.data@.len() == self.width * self.height * 3
    }

    /// A frame over `data`.
    pub fn new(data: Vec<u8>, width: u32, height: u32, timestamp_ns: u64, sequence: u32) -> (r:
        VideoFrame)
        ensures
            r.data@ == data@,
            r.width == width,
            r.height == height,
            r.timestamp_ns == timestamp_ns,
            r.sequence == sequence,
    {
        VideoFrame { data, width, height, timestamp_ns, sequence }
    }

    /// The RGB bytes of pixel `(x, y)`; `None` outside the frame.
    pub fn get_pixel(&self, x: u32, y: u32) -> (r: Option<[u8; 3]>)
        requires
            self.wf(),
        ensures
            x >= self.width || y >= self.height ==> r is None,
            x < self.width && y < self.height ==> r is Some && r->Some_0@ == pixel_bytes(
                self.data@,
                self.width as int,
                x as int,
                y as int,
            ),
    {
        if x >= self.width || y >= self.height {
            return None;
        }
        let len = self.data.len();
        proof {
            lemma_in_image(self.width as int, self.height as int, x as int, y as int);
            assert(0 <= y * self.width <= y * self.width + x);
        }
        let idx = (y as usize * self.width as usize + x as usize) * 3;
        let px = [self.data[idx], self.data[idx + 1], self.data[idx + 2]];
        assert(px@ =~= pixel_bytes(self.data@, self.width as int, x as int, y as int));
        Some(px)
    }

    /// One luminance byte per pixel.
    pub fn to_grayscale(&self) -> (r: Vec<u8>)
        requires
            self.wf(),
        ensures
            r@.len() == self.data@.len() / 3,
            forall|i: int|
                0 <= i < r@.len() ==> #[trigger] r@[i] == luma(
                    self.data@[3 * i],
                    self.data@[3 * i + 1],
                    self.data@[3 * i + 2],
                ),
    {
        let len = self.data.len();
        let n = len / 3;
        let mut gray: Vec<u8> = Vec::with_capacity(n);
        let mut i: usize = 0;
        while i < n
            invariant
                n == self.data@.len() / 3,
                len == self.data@.len(),
                i <= n,
                gray@.len() == i,
                forall|j: int|
                    0 <= j < i ==> #[trigger] gray@[j] == luma(
                        self.data@[3 * j],
                        self.data@[3 * j + 1],
                        self.data@[3 * j + 2],
                    ),
            decreases n - i,
        {
            assert(3 * i + 2 < self.data@.len());
            let k = 3 * i;
            let r = self.data[k] as u32;
            let g = self.data[k + 1] as u32;
            let b = self.data[k + 2] as u32;
            gray.push(((299 * r + 587 * g + 114 * b) / 1000) as u8);
            i = i + 1;
        }
        gray
    }

    /// The `w` by `h` region whose top-left pixel is `(x, y)`; `None` when it
    /// reaches past the frame.
    pub fn crop(&self, x: u32, y: u32, w: u32, h: u32) -> (r: Option<VideoFrame>)
        requires
            self.wf(),
        ensures
            x + w > self.width || y + h > self.height ==> r is None,
            x + w <= self.width && y + h <= self.height ==> r is Some && ({
                let c = r->Some_0;
                &&& c.wf()
                &&& c.width == w && c.height == h
                &&& c.timestamp_ns == self.timestamp_ns && c.sequence == self.sequence
                &&& c.data@ == crop_rows(
                    self.data@,
                    self.width as int,
                    x as int,
                    y as int,
                    w as int,
                    h as nat,
                )
            }),
    {
        if x as u64 + w as u64 > self.width as u64 || y as u64 + h as u64 > self.height as u64 {
            return None;
        }
        let width = self.width as usize;
        let len = self.data.len();
        let mut out: Vec<u8> = Vec::new();
        let mut row: u32 = y;
        while row < y + h
            invariant
                self.wf(),
                width == self.width,
                len == self.data@.len(),
                x + w <= self.width,
                y + h <= self.height,
                y <= row <= y + h,
                out@ == crop_rows(
                    self.data@,
                    self.width as int,
                    x as int,
                    y as int,
                    w as int,
                    (row - y) as nat,
                ),
                out@.len() == (row - y) * w * 3,
            decreases y + h - row,
        {
            proof {
                assert(row * width + x + w <= (row + 1) * width) by (nonlinear_arith)
                    requires
                        x + w <= width,
                ;
                assert((row + 1) * width <= self.height * width) by (nonlinear_arith)
                    requires
                        row + 1 <= self.height,
                ;
                assert(0 <= row * width) by (nonlinear_arith)
                    requires
                        0 <= row,
                        0 <= width,
                ;
                assert(self.height * width * 3 == self.data@.len()) by (nonlinear_arith)
                    requires
                        self.data@.len() == self.width * self.height * 3,
                        width == self.width,
                ;
            }
            let start = (row as usize * width + x as usize) * 3;
            let end = start + w as usize * 3;
            let ghost before = out@;
            let mut k = start;
            while k < end
                invariant
                    start <= k <= end,
                    end <= self.data@.len(),
                    out@ == before + self.data@.subrange(start as int, k as int),
                decreases end - k,
            {
                out.push(self.data[k]);
                k = k + 1;
                assert(out@ =~= before + self.data@.subrange(start as int, k as int));
            }
            proof {
                assert(start == byte_index(self.width as int, x as int, row as int));
                assert(end == byte_index(self.width as int, (x + w) as int, row as int));
                assert((row + 1 - y) * w * 3 == (row - y) * w * 3 + w * 3) by (nonlinear_arith);
            }
            row = row + 1;
        }
        proof {
            assert((w * h * 3) as int == h * w * 3) by (nonlinear_arith);
        }
        Some(
            VideoFrame {
                data: out,
                width: w,
                height: h,
                timestamp_ns: self.timestamp_ns,
                sequence: self.sequence,
            },
        )
    }

    /// The frame scaled to `new_width` by `new_height` by nearest-neighbour
    /// sampling.
    pub fn resize(&self, new_width: u32, new_height: u32) -> (r: VideoFrame)
        requires
            self.wf(),
            new_width > 0 && new_height > 0 ==> self.width > 0 && self.height > 0,
            new_width * new_height * 3 <= usize::MAX,
        ensures
            r.wf(),
            r.width == new_width,
            r.height == new_height,
            r.timestamp_ns == self.timestamp_ns,
            r.sequence == self.sequence,
            r.data@ == resized_prefix(
                self.data@,
                self.width as int,
                self.height as int,
                new_width as int,
                new_height as int,
                (new_width * new_height) as nat,
            ),
    {
        let ghost d = self.data@;
        let ghost wi = self.width as int;
        let ghost hi = self.height as int;
        let ghost nwi = new_width as int;
        let ghost nhi = new_height as int;
        let mut out: Vec<u8> = Vec::new();
        if new_width == 0 || new_height == 0 {
            proof {
                assert(new_width * new_height == 0) by (nonlinear_arith)
                    requires
                        new_width == 0 || new_height == 0,
                ;
            }
            return VideoFrame {
                data: out,
                width: new_width,
                height: new_height,
                timestamp_ns: self.timestamp_ns,
                sequence: self.sequence,
            };
        }
        let mut yy: u32 = 0;
        while yy < new_height
            invariant
                self.wf(),
                d == self.data@,
                wi == self.width,
                hi == self.height,
                nwi == new_width,
                nhi == new_height,
                new_width > 0 && new_height > 0,
                self.width > 0 && self.height > 0,
                yy <= new_height,
                out@ == resized_prefix(d, wi, hi, nwi, nhi, (yy * new_width) as nat),
                out@.len() == yy * new_width * 3,
            decreases new_height - yy,
        {
            proof {
                assert(yy * self.height <= u32::MAX * u32::MAX) by (nonlinear_arith)
                    requires
                        yy <= u32::MAX,
                        self.height <= u32::MAX,
                ;
            }
            let qy = (yy as u64 * self.height as u64) / new_height as u64;
            let sy: u32 = if qy < (self.height - 1) as u64 {
                qy as u32
            } else {
                self.height - 1
            };
            let mut xx: u32 = 0;
            while xx < new_width
                invariant
                    self.wf(),
                    d == self.data@,
                    wi == self.width,
                    hi == self.height,
                    nwi == new_width,
                    nhi == new_height,
                    self.width > 0 && self.height > 0,
                    yy < new_height,
                    xx <= new_width,
                    sy == nearest(yy as int, hi, nhi),
                    sy < self.height,
                    out@ == resized_prefix(d, wi, hi, nwi, nhi, (yy * new_width + xx) as nat),
                    out@.len() == (yy * new_width + xx) * 3,
                decreases new_width - xx,
            {
                proof {
                    assert(xx * self.width <= u32::MAX * u32::MAX) by (nonlinear_arith)
                        requires
                            xx <= u32::MAX,
                            self.width <= u32::MAX,
                    ;
                }
                let qx = (xx as u64 * self.width as u64) / new_width as u64;
                let sx: u32 = if qx < (self.width - 1) as u64 {
                    qx as u32
                } else {
                    self.width - 1
                };
                let ghost k = yy * new_width + xx;
                proof {
                    vstd::arithmetic::div_mod::lemma_fundamental_div_mod_converse(
                        k as int,
                        nwi,
                        yy as int,
                        xx as int,
                    );
                    assert(k + 1 <= new_width * new_height) by (nonlinear_arith)
                        requires
                            k == yy * new_width + xx,
                            xx < new_width,
                            yy < new_height,
                    ;
                }
                let px = self.get_pixel(sx, sy);
                match px {
                    Some(p) => {
                        out.push(p[0]);
                        out.push(p[1]);
                        out.push(p[2]);
                    },
                    None => {
                        out.push(0);
                        out.push(0);
                        out.push(0);
                    },
                }
                proof {
                    assert(out@ =~= resized_prefix(d, wi, hi, nwi, nhi, (k + 1) as nat));
                }
                xx = xx + 1;
            }
            proof {
                assert((yy + 1) * new_width == yy * new_width + new_width) by (nonlinear_arith);
            }
            yy = yy + 1;
        }
        proof {
            assert(new_height * new_width == new_width * new_height) by (nonlinear_arith);
            assert((new_width * new_height * 3) as int == new_width * new_height * 3);
        }
        VideoFrame {
            data: out,
            width: new_width,
            height: new_height,
            timestamp_ns: self.timestamp_ns,
            sequence: self.sequence,
        }
    }
}

} // verus!
