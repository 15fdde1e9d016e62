cbuffer Params : register(b0) {
    uint width;
    uint height;
    uint phase;
    uint is_bgra;
    uint src_width;
    uint src_height;
    uint _pad0;
    uint _pad1;
};
Texture2D<float4> srcTex : register(t0);
RWTexture2D<unorm float> outY : register(u0);
RWTexture2D<unorm float2> outUV : register(u1);

static const float3 kY = float3(0.299, 0.587, 0.114);
static const float kCbScale = 1.0 / 1.772;
static const float kCrScale = 1.0 / 1.402;

float3 to_rgb(float4 c) {
    return is_bgra ? c.bgr : c.rgb;
}

uint2 scale_coord(uint ox, uint oy) {
    uint sx = (uint)((float)ox * (float)src_width  / (float)width);
    uint sy = (uint)((float)oy * (float)src_height / (float)height);
    return uint2(min(sx, src_width - 1u), min(sy, src_height - 1u));
}

[numthreads(16, 16, 1)]
void main(uint3 gid : SV_GroupID, uint3 tid : SV_GroupThreadID) {
    uint x = gid.x * 16u + tid.x;
    uint y = gid.y * 16u + tid.y;
    // H.264 standard: limited range. Y 16-235, CbCr 16-240.
    // Y_out = (16 + Y*219)/255, CbCr_out = (128 + (cb,cr)*224)/255
    if (phase == 0u) {
        if (x >= width || y >= height) return;
        float3 rgb = to_rgb(srcTex[scale_coord(x, y)]);
        float Y = saturate(dot(rgb, kY));
        outY[uint2(x, y)] = saturate(16.0/255.0 + Y * (219.0/255.0));
    } else {
        uint uw = width >> 1u;
        uint uh = height >> 1u;
        if (x >= uw || y >= uh) return;
        float3 rgb00 = to_rgb(srcTex[scale_coord(x * 2u,     y * 2u)]);
        float3 rgb10 = to_rgb(srcTex[scale_coord(x * 2u + 1u, y * 2u)]);
        float3 rgb01 = to_rgb(srcTex[scale_coord(x * 2u,     y * 2u + 1u)]);
        float3 rgb11 = to_rgb(srcTex[scale_coord(x * 2u + 1u, y * 2u + 1u)]);
        float3 avg = (rgb00 + rgb10 + rgb01 + rgb11) * 0.25;
        float Y = dot(avg, kY);
        float cb = (avg.b - Y) * kCbScale;  // -0.5..0.5
        float cr = (avg.r - Y) * kCrScale;  // -0.5..0.5
        float u = saturate(128.0/255.0 + cb * (224.0/255.0));
        float v = saturate(128.0/255.0 + cr * (224.0/255.0));
        outUV[uint2(x, y)] = float2(u, v);
    }
}
