// BT.601: Y = 0.299*R + 0.587*G + 0.114*B; Cb = (B-Y)/1.772 + 0.5; Cr = (R-Y)/1.402 + 0.5
// Each thread processes 4 horizontally adjacent pixels and packs them into one uint
// (byte0=pixel0, byte1=pixel1, byte2=pixel2, byte3=pixel3) via Store.
// phase 0: Y plane  (width x height pixels, width/4 uints per row)
// phase 1: U/V planes ((width/2) x (height/2) pixels, width/8 uints per row)
cbuffer Params : register(b0) {
    uint width;
    uint height;
    uint phase;
};
Texture2D<float4> rgbaTex : register(t0);
RWByteAddressBuffer outY : register(u0);
RWByteAddressBuffer outU : register(u1);
RWByteAddressBuffer outV : register(u2);

static const float3 kY = float3(0.299, 0.587, 0.114);
static const float kCbScale = 1.0 / 1.772;
static const float kCrScale = 1.0 / 1.402;

[numthreads(16, 16, 1)]
void main(uint3 gid : SV_GroupID, uint3 tid : SV_GroupThreadID) {
    // Each thread handles 4 pixels along X; gid.x steps in units of 4*16=64 pixels.
    uint x4 = (gid.x * 16u + tid.x) * 4u;
    uint y  = gid.y * 16u + tid.y;
    if (phase == 0u) {
        if (x4 >= width || y >= height) return;
        float4 c0 = rgbaTex[uint2(x4,     y)];
        float4 c1 = rgbaTex[uint2(x4 + 1u, y)];
        float4 c2 = rgbaTex[uint2(x4 + 2u, y)];
        float4 c3 = rgbaTex[uint2(x4 + 3u, y)];
        uint b0 = (uint)(saturate(dot(c0.rgb, kY)) * 255.0);
        uint b1 = (uint)(saturate(dot(c1.rgb, kY)) * 255.0);
        uint b2 = (uint)(saturate(dot(c2.rgb, kY)) * 255.0);
        uint b3 = (uint)(saturate(dot(c3.rgb, kY)) * 255.0);
        uint packed = b0 | (b1 << 8u) | (b2 << 16u) | (b3 << 24u);
        outY.Store((y * width + x4), packed);
    } else {
        uint uw = width >> 1u;
        uint uh = height >> 1u;
        if (x4 >= uw || y >= uh) return;
        // Each of the 4 UV pixels averages a 2x2 luma block.
        uint packed_u = 0u;
        uint packed_v = 0u;
        [unroll] for (uint i = 0u; i < 4u; i++) {
            uint cx = x4 + i;
            if (cx >= uw) break;
            float4 c00 = rgbaTex[uint2(cx * 2u,      y * 2u)];
            float4 c10 = rgbaTex[uint2(cx * 2u + 1u,  y * 2u)];
            float4 c01 = rgbaTex[uint2(cx * 2u,      y * 2u + 1u)];
            float4 c11 = rgbaTex[uint2(cx * 2u + 1u,  y * 2u + 1u)];
            float3 avg = (c00.rgb + c10.rgb + c01.rgb + c11.rgb) * 0.25;
            float Y  = dot(avg, kY);
            uint ub = (uint)(saturate((avg.b - Y) * kCbScale + 0.5) * 255.0);
            uint vb = (uint)(saturate((avg.r - Y) * kCrScale + 0.5) * 255.0);
            packed_u |= (ub << (i * 8u));
            packed_v |= (vb << (i * 8u));
        }
        outU.Store((y * uw + x4), packed_u);
        outV.Store((y * uw + x4), packed_v);
    }
}
